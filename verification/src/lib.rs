//! Model profile, provider planning and transcript-text rules of the
//! Sherpa ONNX transcription engine.
pub mod error;
pub mod model;
pub mod provider;
pub mod text;
pub mod recognizer;
pub mod decode;
pub mod laws;
pub mod benchmark;
pub mod segments;
