//! Core logic of a small single-process operating system: the system-call
//! wire protocol shared by kernel and user space, the kernel's reference
//! descriptor table and request handlers, keyboard event derivation, display
//! driver planning, and the character-cell terminal used by the shell.
pub mod errno;
pub mod abi;
pub mod syscall;
pub mod request;
pub mod dispatch;
pub mod display_types;
pub mod keyboard_types;
pub mod key_tracker;
pub mod rd_table;
pub mod display_driver;
pub mod st7920;
pub mod custom_display;
pub mod kernel_syscall;
pub mod kernel;
pub mod fd;
pub mod process;
pub mod user_keyboard;
pub mod char_display;
pub mod shell;
pub mod prompt_buffer;
pub mod terminal;
