# rust_lldb_visual_debugger

A visual debugger in the style of x64dbg. Its core (a simulated LLDB engine,
an x64dbg remote adapter, the attach lifecycle and the remote session
manager) and the decisions of its user interface are written in Verus and
verified; the window, the file system, the process listing, the network and
the core's thread live in `app/`.

- `src/debugger/`: the engine (`engine.rs`), the local and remote sessions
  (`session.rs`, `remote/`), the attach lifecycle and request checks
  (`types.rs`), the events (`events.rs`), the core that turns commands into
  events and asks its host for outside work (`mod.rs`), and properties that
  span the engine's operations (`laws.rs`).
- `src/ui/`: what the window shows and decides: the state kept from the
  core's events, the control panel's inputs, the memory viewer, the status
  bar, row layouts and colours.
- `src/text.rs`, `src/types/`: text handling and shared data.
- `app/`: the egui window and the host that performs what the core asks
  (reading binaries, probing processes and the network, waiting between
  reconnection attempts).

On the remote backend every refresh of the memory window is a remote read,
and an acknowledged read leaves the target shown as paused: a remote target
therefore shows `Paused` after a continue or after running off its last
instruction, where a local one shows `Running` or `Exited`. This is
intended: the remote target is stopped whenever its memory has just been
read.
