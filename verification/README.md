# suno_mv

The core of a desktop tool that turns a Suno song into a music video, written
in Verus. Every function in `src/` carries a contract; Verus proves them all
except those of the few functions marked `#[verifier::external_body]`, which
call the standard library, `serde_json`, `regex` or `base64` and whose
contracts are trusted.

- `src/bridge/` – the browser bridge: payload validation, session ids, the
  checks on one HTTP request (method, path, bearer token, body size, no
  credential-like field anywhere in the body), an
  incremental reader that assembles a request from socket reads, and the
  answer that is sent back.
- `src/names.rs`, `src/text.rs` – song ids, safe file names, masked secrets,
  and the string operations they are built from.
- `src/json.rs`, `src/html.rs`, `src/metadata.rs` – Suno metadata read from
  feed JSON and from the song page's HTML, and how sources are merged.
- `src/settings.rs`, `src/generate.rs`, `src/ffmpeg.rs` – settings and their
  allow-lists, the plan of a render, FFmpeg's arguments and executables.
- `src/fetch.rs`, `src/clip.rs` – the metadata and clip fetches as state
  machines: the caller performs each request and hands the outcome back.

`app/` holds the Tauri commands, the sockets, files, HTTP clients and child
processes; it drives the library and is not verified. `tests/` runs the
library on concrete cases.
