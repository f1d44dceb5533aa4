# raptor

The core of a media player, verified with Verus, and the player around it.

`src/` is the verified library:

- `state` — the player's state machine (which event is accepted in which state,
  and where it leads), with its laws.
- `player` — the control logic: what each command does to the state and which
  actions it asks of the pipeline, the property store and the event channel.
- `property` — property values, their JSON text and how text reads back as a
  value; the property store with its observers, whose ids come from one
  counter shared by every store of a process.
- `avsync` — the A/V clock: display, wait or drop for each video frame, and the
  re-basing that keeps a lagging video from freezing.
- `pipeline` — the decisions of the playback threads: what a start sets up, what
  the demux, decode and render loops do at each turn, when a file ends.
- `media` — formats, frames, packets, the description of an opened file, packet
  routing and time-base conversions (times are integer microseconds).
- `render` — the chroma plane that the renderer uploads, and when it is set up
  anew for a frame of another size.
- `error`, `event`, `command` — error codes, events and commands.
- `text` — decimal integers, `Debug` and JSON string escaping (with a JSON
  string reader that the escaping is proved against), quote trimming.
- `clock` — the monotonic clock, behind trusted wrappers.

`app/` holds what Verus does not check: FFmpeg demuxing and decoding, the cpal
audio output (with its floating-point resampling), the wgpu window renderer,
the threads of the pipeline, the thread-safe property store that runs the
observers' callbacks, and the C interface with its JSON types.
