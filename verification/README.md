# Transcription starter

A small HTTP server that takes audio, has Deepgram transcribe it, and answers in the shape that a
frontend expects. Its decisions are a library, written in Rust and proved with Verus; what talks to
the network, the file system and the environment stands around it.

- `src/`: the library. Its functions state in `requires` and `ensures` what they expect and what
  they give. Calls into other crates go through a few functions whose contracts are believed, not
  proved; their doc comments say which call each of them makes, and what is left unsaid.
- `tests/`: the library at work, with the real crates behind it.
- `app/`: the server itself, on axum, and the first starter, on Rocket.

Routes of the server:

| Route | Answer |
| --- | --- |
| `GET /api/session` | a session token, good for an hour |
| `POST /api/transcription` | the transcription of a `file` or a `url`; needs a session |
| `GET /api/metadata` | the `[meta]` section of `deepgram.toml` |
| `GET /health` | `{"status": "ok"}` |
