# szechat

The logic of a small desktop chat client, verified with Verus.

- `src/wire.rs` — the wire format: every message travels as one frame of 4096 bytes, its
  UTF-8 text padded with zero bytes; a reader takes the bytes before the first zero,
  decodes and trims them. The round trip (what a reader gets back of a frame) is proved,
  also for the frames actually sent, whose time stamp is named by what chrono formats.
- `src/clock.rs` — the time stamp: the current time as seconds and nanoseconds, and its
  text by the stamp pattern, both from chrono.
- `src/text.rs` — trimming by the Unicode `White_Space` property and splitting at newlines.
- `src/chat.rs` — the state of the chat window and the decisions it takes each frame:
  focus and unread-message tracking, receiving, sending, connecting and disconnecting,
  the status line and the emoji button.
- `src/emoji.rs` — the emoji panel's choice of emoji.
- `src/keys.rs` — reading the keyboard's key-state words.
- `app/` — the window itself (egui/eframe), the TCP connection, notifications and
  persistence; it is ordinary Rust around the library.

The window in `app/` shows unread-message notifications with the `win32_notification`
crate, as the original program does. That crate's dependency tree is too large to be
fetched alongside the others here, so it is not in `Cargo.toml` and `app/` does not build
without it.
