//! Core logic of the voice-cloner desktop backend: settings, audio frame
//! formats, backend endpoint derivation, ordered playback buffering and the
//! realtime event state machine.

pub mod asr;
pub mod design;
pub mod domain;
pub mod endpoints;
pub mod error;
pub mod frame;
pub mod frame_queue;
pub mod full_chain;
pub mod json;
pub mod library;
pub mod mcp;
pub mod mic_buffer;
pub mod naming;
pub mod offline;
pub mod options;
pub mod order;
pub mod playback;
pub mod realtime;
pub mod runtime;
pub mod separation;
pub mod session;
pub mod sessions;
pub mod settings;
pub mod sidecar;
pub mod storage;
pub mod text;
pub mod voice_stream;
