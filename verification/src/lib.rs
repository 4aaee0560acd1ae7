//! Decision logic of a voice-note recorder: configuration, session lifecycle,
//! speech-to-text message handling, language-model requests and replies, and
//! waveform binning. The I/O around it (audio device, sockets, HTTP, files)
//! lives in the application crate.

pub mod audio_capture;
pub mod config;
pub mod prompt_templates;
pub mod text;
pub mod waveform_analyzer;
pub mod session_manager;
pub mod stt_client;
pub mod llm_agents;
