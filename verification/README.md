# vinyl

A small window to a music player daemon: what is being played, the time, the volume, the queue.

- `src/` is the library, verified with Verus: what the player knows (`model`), what it shows
  (`win`, `song`, `status`, `text`), what its widgets send and what a message comes to (`message`,
  `dispatch`), where the daemon listens (`settings`), and what holds of all that together (`laws`).
- `app/` is the program around it: the widgets, the connection to the daemon, the timers, and the
  layout of the window.
- `tests/` runs the library on concrete values.

The library does no input or output. It works on plain values, and the program carries out what
the library decides. Where a function asks something of its arguments, a function beside it tells
whether they meet it (`Model::is_time_known`, `Win::can_mark`, `Win::can_update`,
`Win::can_fill`).

What is trusted without proof: the arithmetic of `time::Duration` (in `span`), the reading of a
table of settings by the `config` crate (in `settings`), and the text that `Debug` gives (in
`dispatch`).

Settings are read from `~/.config/vinyl/config.toml`:

```toml
[mpd]
host = "127.0.0.1"
port = 6600
```
