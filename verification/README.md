# ferrumcast

A screen capture and streaming daemon built on GStreamer, whose control
logic is written in Verus and proved against its contracts.

## Layout

- `src/` — the verified library:
  - `config.rs`: stream configuration, defaults, command-line reading and the
    encoder capability list;
  - `pipeline.rs` and `pipeline/`: encoder selection, encoder tuning, caps
    negotiation text, the x264 VBV size (an exact model of the
    single-precision computation) and the whole pipeline description;
  - `platform.rs` and `platform/`: capture and audio sources per operating
    system, desktop detection, the Wayland portal negotiation and the token
    file location;
  - `engine.rs`: the answer to each control request, as a step from the
    stored configuration and a request to the next configuration and an
    action;
  - `ipc.rs`, `stream.rs`, `input.rs`, `gdi_capture.rs`, `text.rs`: message
    types and framing, pipeline bookkeeping, pointer buttons, the GDI grabber's
    arithmetic and the string helpers everything above is written with.
- `tests/`: executable checks of the library on concrete inputs.
- `app/`: the Linux daemon around the library: GStreamer, the desktop portal,
  the control socket and JSON.

## Building `app/`

`app/` is written for Linux. It links GStreamer through the `gstreamer`
crate, which needs the GStreamer and GLib development files
(`gstreamer-1.0.pc`, `glib-2.0.pc`) and, in its current release, a newer
rustc than the one available here; neither is present in this build
environment, so `gstreamer` is left out of `Cargo.toml` and `app/` does not
type-check here. Add `gstreamer` to `[dependencies]` on a machine with the
GStreamer development files to build the daemon. The Windows side (Desktop
Duplication and GDI capture, `SendInput`, the named pipe) needs the Win32
bindings of the `windows` crate and is not part of `app/`; its decisions and
arithmetic are in `src/`.
