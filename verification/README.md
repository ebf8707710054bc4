# Minnty sound server

The sound server streams the audio playing on a PC to Minnty clients on the
local network: it captures a sink's monitor, encodes it with Opus and sends
it over UDP to the clients that registered with it, answers their control
messages, forwards media keys to the desktop's media player, and serves a
small web UI on `127.0.0.1:3000`.

## Layout

- `src/` — the verified library (Verus): the UDP wire protocol
  (`control::messages`, `codec`, `buf`), the client registry and the
  listener's decisions (`transport`), the stream and monitor state
  (`control::http`, `control::pacing`, `monitor`, `audio::capture`,
  `audio::controller`),
  media-control decisions (`media_control`), locale selection and the UI
  string tables (`i18n`), and smaller pieces (launcher icon, mDNS names,
  test-gap injection).
- `app/` — the program around it: sockets, PulseAudio, D-Bus, the Opus
  codec, the web server, the tray launcher and the async plumbing. It
  performs what the library decides.
- `tests/` — tests of the library.
