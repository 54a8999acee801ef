# mpris_osc

Mirrors what the desktop's active MPRIS media player is playing into an OSC
chatbox (address `/chatbox/input`, default receiver `127.0.0.1:9000`).

- `src/` is the verified library (Verus):
  - `wire.rs`: outgoing OSC messages and their OSC 1.0 byte layout; encoding
    is done by `rosc`.
  - `chatbox.rs`: the chatbox line (status mark, title, album, artists,
    ten-cell progress bar) and its datagram.
  - `media.rs`: player snapshots, the labels shown for them, the media panel
    and the polling decision.
  - `osc.rs`: connection states, the sending task's decisions, the panel.
  - `window.rs`: the window's two panels.
- `app/` is the program around it: D-Bus polling, the UDP socket, the async
  loops, the floating-point parts of the display, and a text rendering of the
  window.
