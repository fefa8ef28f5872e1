# parler

The verified core of a dictation application, written in Verus.

- `src/` is the library. Every function in it is verified against its contract.
  - `transcription/` holds the targets, the providers, the local model slot with
    its restore tickets, and the service that guards consent and credentials.
  - `secrets/` holds the credential stores and the migration of plaintext keys.
  - `shortcut/` holds the hotkey registry, the recording session and the
    decisions of the shortcut manager.
  - `commands/` and `managers/` hold what the user interface asks for.
  - `llm_client`, `gemini_client` and `insanely_fast_whisper_client` prepare
    requests and read answers.
  - `overlay`, `hardware_detection`, `openblas` and `crash_logging` decide what
    their platform code does.
  - `text`, `keyed_map` and `json` are what the rest is built on.
- `tests/` runs the library.
- `app/` is ordinary Rust around it: threads, the network, the file system, the
  credential store, the keyboard, and floating point.

The calls into other crates that the library makes stand behind small trusted
functions: `transcription::wav` writes through hound, `transcription::gemini`
encodes with base64, `llm_client` asks reqwest about header values and status
codes, and `text` asks the standard library for letter case. Each says in its
documentation what it claims of the call.
