# wl-clip-persist core

The verified core of a daemon that keeps the Wayland clipboard alive after the
program that owns it exits.

- `src/` is the verified library: reading the settings from the
  command-line values (`settings`), the decisions taken after each Wayland
  session ends (`reconnect`), the answers to shutdown signals (`signal`), the
  text of every log line (`logger`), the byte buffer that is zeroed on drop
  (`zeroize`), and the decimal and text helpers they share (`decimal`, `text`).
- `app/` is the plain Rust around it: clap, env_logger, tokio, and the adapters
  over the wayrs clipboard protocols.
- `tests/` runs the library on concrete values.
