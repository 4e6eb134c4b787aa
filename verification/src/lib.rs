//! Core of a push-to-talk dictation daemon.
//!
//! The library holds the logic of the dictation pipeline: shortcut parsing
//! and the hotkey state machine, the model registry with its download
//! protocol, transcript assembly and the two-profile decode plan, the text
//! post-formatter with snippet expansion, the clipboard-preserving injection
//! plan, and the session orchestrator. OS hooks, audio capture, network and
//! file I/O live outside the library and hand it plain values.

pub mod audio;
pub mod clock;
pub mod decode;
pub mod download;
pub mod hotkey;
pub mod inject;
pub mod llm;
pub mod platform;
pub mod prompts;
pub mod registry;
pub mod session;
pub mod shortcuts;
pub mod snippets;
pub mod store;
pub mod stt;
pub mod text;
pub mod textproc;
