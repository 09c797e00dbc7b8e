use ntrixos::custom_display::CustomDisplay;
use ntrixos::st7920::{command_frame, data_frame, graphics_address, St7920Op, ST7920};

#[test]
fn st7920_frames() {
    assert_eq!(command_frame(0x36), [0xf8, 0x30, 0x60]);
    assert_eq!(data_frame(0xab), [0xfa, 0xa0, 0xb0]);
    assert_eq!(graphics_address(5), (0, 5));
    assert_eq!(graphics_address(40), (8, 8));
}

#[test]
fn st7920_init_sequence() {
    let d = ST7920::new((), (), false);
    let ops = d.init();
    let mut expected = vec![St7920Op::CsHigh];
    for b in [0x30u8, 0x30, 0x0C, 0x01, 0x06, 0x34, 0x36] {
        expected.push(St7920Op::Command(b));
        expected.push(St7920Op::DelayMs(2));
    }
    expected.push(St7920Op::CsLow);
    assert_eq!(ops, expected);
    assert_eq!((ST7920::<(), ()>::width(), ST7920::<(), ()>::height()), (128, 64));
}

#[test]
fn st7920_update_sends_only_changed_rows() {
    let mut d = ST7920::new((), (), false);
    let mut img = [0u8; 1024];
    img[33 * 16 + 3] = 0x5a;
    let ops = d.update(&img);
    assert_eq!(ops.len(), 2 + 2 + 16);
    assert_eq!(ops[0], St7920Op::CsHigh);
    assert_eq!(ops[1], St7920Op::Command(0x81));
    assert_eq!(ops[2], St7920Op::Command(0x88));
    assert_eq!(ops[3 + 3], St7920Op::Data(0x5a));
    assert_eq!(ops[3], St7920Op::Data(0));
    assert_eq!(ops[19], St7920Op::CsLow);
    let again = d.update(&img);
    assert_eq!(again, vec![St7920Op::CsHigh, St7920Op::CsLow]);
}

#[test]
fn st7920_clear_rewrites_every_row() {
    let mut d = ST7920::new((), (), true);
    let ops = d.clear();
    assert_eq!(ops.len(), 64 * 18 + 2);
    assert_eq!(ops[1], St7920Op::Command(0x80));
    assert_eq!(ops[2], St7920Op::Command(0x80));
    assert_eq!(ops[3], St7920Op::Data(0));
    let row32 = 1 + 32 * 18;
    assert_eq!(ops[row32], St7920Op::Command(0x80));
    assert_eq!(ops[row32 + 1], St7920Op::Command(0x88));
    let after = d.update(&[0u8; 1024]);
    assert_eq!(after.len(), 2);
}

#[test]
fn custom_display_messages() {
    let d = CustomDisplay::new(());
    assert_eq!(d.init(), vec![3, 0, 0, 1, 0]);
    assert_eq!(d.write_row(258, &[0x01, 0x80, 0xf0]), vec![1, 0, 0, 1, 2, 0, 0x80, 0x01, 0x0f]);
    assert_eq!(CustomDisplay::<()>::row_range(2), (64, 96));
    assert_eq!((CustomDisplay::<()>::width(), CustomDisplay::<()>::height()), (256, 256));
}

#[test]
fn custom_display_update_and_clear_every_row() {
    let d = CustomDisplay::new(());
    let mut img = vec![0u8; 8192];
    img[32] = 0x01;
    let msgs = d.update(&img);
    assert_eq!(msgs.len(), 256);
    assert_eq!(msgs[1][..7], [1, 0, 0, 0, 1, 0, 0x80]);
    assert_eq!(msgs[255][..6], [1, 0, 0, 0, 255, 0]);
    let cleared = d.clear();
    assert_eq!(cleared.len(), 256);
    assert_eq!(cleared[3], {
        let mut m = vec![1, 0, 0, 0, 3, 0];
        m.extend([0u8; 32]);
        m
    });
}
