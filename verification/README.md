# ATEM IP Patchbay

Pushes any video source (a camera, a screen, NDI, OMT, an SRT or RTMP feed) into
Blackmagic ATEM gear over SRT or RTMP, or out of a DeckLink card. One process runs
several encoders, each with its own source, destination, stream and control port.

## Layout

- `src/` is the library. It decides everything: which source and destination the settings
  pick, how FFmpeg is commanded, what FFmpeg's output means, when a stream is started
  again, how the control protocol is read and answered, what the diagnosis makes of
  captured packets. It is verified with Verus: each function states what it returns, and
  the laws that hold of several functions together stand beside them as proof functions.
- `app/` is the program around the library: processes, sockets, files, the web interface,
  the NDI and OMT kits, and whatever is floating point.
- `tests/` runs the library on concrete values.

## Modules of the library

- Text: `text`, `scan`, `number`, `patterns`, `shell`.
- Services and destinations: `nesting`, `xml`, `services`, `loading`, `streamid`.
- Settings: `state`, `settings`, `snapshot`, `state_persist`.
- Sources: `device_scanner`, `avf_modes`, `decklink`, `discovery`, `sources`, `resolve`.
- Streams: `plan`, `encoder`, `command`, `raw_video`, `frame_pack`, `audio_bridge`,
  `attempt`, `progress`, `supervisor`.
- Instances: `ffmpeg_path`, `fleet`, `instance`, `protocol`, `system_monitor`.
- Diagnosis: `json`, `probe`, `srt_handshake`, `flows`, `rank`, `addresses`, `timestamps`,
  `diag_cli`, `diag_config`, `dashboard`, `unifi`, `decklink_spike`.

## What is not proved

A few functions of other crates and of std are trusted: XML and JSON parsing, regular
expressions, random identifiers, and some of std's text functions. Each stands behind a small function
whose comment says what is claimed of it.

## Programs

    atem_ip_patchbay [--instance-name NAME] [--http-port PORT] [--bmd-port PORT]
    atem_ip_patchbay net-diag <srt://host:port> [flags]
    atem_ip_patchbay decklink-spike [--list | --run] [options]
