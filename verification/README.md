# ntrixos

The verified core of a small single-user, single-process operating system
for the RP2040: a kernel on one core serves system calls from a user
program on the other through a message in shared memory.

`src/` is a Verus library:

- `abi`, `errno`, `syscall`, `display_types`, `keyboard_types` — values
  shared by kernel and programs, with their wire forms;
- `request` (user side) and `dispatch` (kernel side) — writing and reading
  system-call messages, with round-trip laws;
- `rd_table`, `kernel_syscall` — the kernel's registered-memory table and
  its answers to read and device-control requests;
- `kernel` — one request served: decoded, answered against the table, and
  the work left outside (waiting for a key, flushing, writing a reply,
  restarting the program) named;
- `key_tracker` — keyboard reports to press and release events;
- `display_driver`, `st7920`, `custom_display` — display drivers as
  sequences of operations and bytes;
- `fd`, `process`, `user_keyboard`, `char_display` — the user side of each
  request and the meaning of the kernel's answers;
- `prompt_buffer`, `terminal`, `shell` — the scrolling terminal with its
  wrapping prompt, and the shell's key handling.

`app/` is the unverified firmware glue: atomics for the shared message,
the inter-core FIFO, the kernel's request loop that carries out what the
library decides, and the shell program.
`tests/` exercises the library on concrete values.
