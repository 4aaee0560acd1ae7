# anotadoria

Core of a desktop voice-note recorder that transcribes speech with Deepgram
and cleans and summarizes the transcript through a local OpenAI-compatible
LLM proxy.

- `src/` is the verified library (Verus): session lifecycle and waveform
  throttle, proxy health check verdict, Deepgram connection settings and
  transcript filtering, LLM request construction and reply handling,
  waveform binning, configuration file selection, and the text utilities
  they rest on.
- `app/` is the desktop shell around it: audio capture, WebSocket and HTTP
  I/O, file reading, JSON/TOML (de)serialization, the floating-point signal
  metrics, and the Tauri commands.
- `tests/` exercises the library on concrete values.
