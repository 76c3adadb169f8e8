# hyprrec

High-quality screen recording for Hyprland: the focused monitor or a selected region, recorded
through `wf-recorder` into timestamped MP4 files, with optional audio and an optional file of
action telemetry beside the video. Called as `hyprrec-mcp`, the same program is a stdio MCP
server that starts, observes and stops recordings, lists them and inspects them.

The library under `src/` holds every rule of the program and is verified with Verus. `app/` is
ordinary Rust around it: it asks the system what the library wants to know and does what the
library decides.

| Module | What it decides |
| --- | --- |
| `text`, `path`, `clock`, `command` | text, paths as bytes, local time, process arguments |
| `options`, `cli` | profiles, telemetry categories and the command line |
| `naming`, `places` | what a recording is called and where it goes |
| `recorder` | a recording, from its surroundings to its report |
| `keys`, `input` | what is recorded of keys, buttons and scrolling |
| `hyprland` | what is recorded of workspaces and windows |
| `telemetry` | which events a session collects and how it numbers them |
| `session`, `slot`, `launch` | recording sessions on request, at most one at a time |
| `recordings` | listing and inspecting recordings |
| `error` | what a recording or a request can fail with |

What the library takes on trust from other crates and from the standard library is marked
`external_body` or named by a spec function without a body. Each such item says what it claims.

## Privacy of keyboard telemetry

Typing is recorded as `text` activity without characters. Only keys that type nothing, and keys
pressed together with Ctrl, Alt or Super, are recorded by name; Shift alone belongs to typing.
`input::typing_is_not_recorded` proves that exchanging typed characters for others changes
nothing in what is recorded.
