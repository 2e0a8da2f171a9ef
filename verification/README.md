# voice_cloner

The core of a desktop AI voice changer built around the FunSpeech speech
backend: realtime voice conversion sessions, offline voice conversion jobs,
voice design drafts, a custom voice library with remote synchronisation,
voice separation jobs and an MCP endpoint. The library is written in Verus,
and every function in `src/` carries a contract that Verus proves, except
seven small wrappers marked `#[verifier::external_body]` around std functions
(`String::push`, `String::from_utf8_lossy`, `Path::join`, `Path::extension`,
`Path::file_name`, `Path::file_stem`, `Path`'s `==`): their contracts are trusted, not
proved, and the results of the path and UTF-8 functions are named by
uninterpreted spec functions (`path_join`, `path_extension`,
`path_file_name`, `path_file_stem`, `path_eq`, `utf8_lossy`).

## Layout

- `src/`: the verified library.
  - `settings`, `options`, `storage`, `endpoints`: application settings and
    their validation and patching, the extra provider options (one value per
    key, in key order), the on-disk layout, the backend endpoint URLs.
  - `json`, `realtime`, `playback`, `frame_queue`, `voice_stream`: the
    realtime protocol events, the stream snapshot and its ledger, the ordered
    playback buffer (its frames wait in a `BTreeMap` keyed by chunk index,
    through vstd's specification of `BTreeMap`) and the state machines of
    the realtime and ASR→TTS streams.
  - `session`, `sessions`, `full_chain`: realtime sessions, the audio engine
    and the full-chain test's timeline and verdict.
  - `offline`, `asr`, `order`: offline jobs, their state machine, chunking
    and the ASR answers.
  - `design`, `library`, `domain`, `separation`, `sidecar`: voice design
    drafts, custom voice profiles and synchronisation reports, separation
    jobs and the ffmpeg / demucs-rs command lines.
  - `mcp`: the MCP HTTP framing, routing, tool and resource rules.
  - `naming`, `text`, `runtime`, `error`, `frame`, `mic_buffer`: file-name
    sanitising, text helpers, identifiers and their sequence numbers, errors,
    PCM formats and the virtual microphone buffer.
  - The managers (sessions, audio engine, offline jobs, separation jobs,
    voice design drafts), the extra options and the virtual microphone
    buffer keep their ordering and bounds as type invariants, so callers
    need not establish them.
- `tests/`: tests of the library on concrete values.
- `app/`: the program around the library: websocket and HTTP I/O, files,
  threads, WAV processing with floating point, the JSON command shell, the
  MCP server and the full-chain test command.

## Checking

The library verifies with Verus; `app/` is ordinary Rust that uses it.
