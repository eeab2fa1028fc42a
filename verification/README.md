# terminal

The state and the decisions of a terminal tab, verified with Verus.

A terminal sits between a window and a terminal emulator (`alacritty_terminal`). It queues what the
window asks for, carries it out on the emulator, and keeps what is to be shown. Around that it
handles the selection, vi mode, the mouse and its reports, hyperlinks, pasted text, the task that
runs in the tab, and what programs ask for.

## Layout

- `src/` is the library. Every function in it has a contract that Verus proves, but for the calls
  into other crates and into the standard library, whose contracts are trusted: `alac.rs` (the
  emulator), and a few in `text.rs`, `paths.rs`, `links.rs` and `error.rs`.
  - `grid.rs` has the mathematical picture of the emulator, `TermView`, that contracts speak of.
  - `events.rs` has what goes in, what waits, and what comes out.
  - `terminal.rs` has the terminal and its queue, `sync.rs` carries the queue out, `content.rs` is
    what is shown, `process.rs` takes up what the emulator tells, `batch.rs` collects that.
  - `input.rs`, `mouse.rs`, `links.rs`, `lines.rs`, `title.rs`, `task.rs`, `color.rs` and
    `geometry.rs` are the parts that their names say; `builder.rs`, `env.rs` and `error.rs` set a
    terminal up.
  - `fitness.rs` finds out at run time whether the emulator can do what is asked.
  - `laws.rs` has what holds over several operations.
- `tests/` runs the library with the real emulator.
- `app/` is the terminal in its surroundings: the pty, the window, the clock, lengths in pixels.

## Surroundings

The library holds no float, no clock, no file and no process. Lengths in pixels are carried as bit
patterns; what is computed from them, and everything else that the library has to be told, comes in
as arguments. What is to be done outside is collected in a `Context`, what is to be sent to the pty
in a `Notifier`.
