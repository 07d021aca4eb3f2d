# whisp_core

The core of a privacy-first typing-suggestion daemon, written in Verus.
Every function in `src/` that computes something carries a contract (the
unit constructors `ScreenCapture::new` and `PasswordFieldDetector::new` have
nothing to state). The verifier proves those contracts, except for the small trusted wrappers marked
`#[verifier::external_body]` around outside code (std's `Instant`,
`String::push`, `str::to_lowercase`, UTF-8 decoding,
`zeroize`, `image`'s JPEG pipeline, and the `tar`/`flate2`/`zstd`/`zip`
archive readers): their contracts are believed, not proved, and each one's
doc comment says what it claims of the code it calls.

- `src/privacy` — the app blocklist, password-field detection, the
  self-wiping keystroke buffer, and the guard that combines them.
- `src/input` — keys, input events, and the classifier that tells typing from
  shortcuts.
- `src/context` — the typing debouncer (as a state machine), the context
  engine that packages typed text, and screenshot selection and encoding.
- `src/llm` — prompts, request parameters, streamed-suggestion collection,
  and the Ollama backend's request/response logic, release selection,
  unpacking of the server binary from the downloaded archive, and server
  lifecycle decisions.
- `src/overlay`, `src/config`, `src/commands` — overlay state, configuration
  and the desktop commands' logic.
- `src/text` — character-level string helpers.

`app/` is ordinary Rust around the library: configuration files, the
keyboard hook, screen capture, HTTP, file writes and the server process. It
performs the I/O and asks the library for every decision.
