# GBOS device agent

The agent connects a computer to the GBOS backend: it registers the device, sends
heartbeats, telemetry and location, reports who is logged in on the console, and
streams the screen as H.264 while the backend asks for it. On macOS it runs as a
launchd daemon, on Windows as a service that captures through a helper in the
user's session.

`src/` is the agent's logic, written and proved in Verus. It decides; it performs no
I/O of its own. State machines take an event and hand back actions, parsers and
writers turn bytes into values and back.

| module | what it holds |
|--------|----------------|
| `lifecycle` | register, monitor, reconnect, stop |
| `monitor` | one monitoring session: events to actions |
| `command`, `backend`, `json` | the backend's commands, and the messages it is sent |
| `video` | NAL units, the stream config, the encoder, the wire format, the stream and its history |
| `session` | the per-session helper on Windows: bridge, pipe protocol, launch |
| `service` | installing, removing and inspecting the background service |
| `location`, `telemetry`, `console`, `platform` | readings and what they mean |
| `logging`, `calendar` | timestamped lines and rotation |
| `text`, `wide`, `bytes` | strings, UTF-16, big-endian integers |
| `diagnostics` | does the encoder's word on a frame agree with its NAL units? |

`app/` is the program around it: sockets, threads, files, the operating systems'
interfaces, and what is floating point. `tests/` runs the library on values.
