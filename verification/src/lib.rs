//! Speech-to-text for a voice assistant: the library behind the `wm-stt` daemon.
//!
//! - [`config`]: settings, from environment variables, and their validation
//! - [`confidence`]: confidence values and how they compare
//! - [`bus`]: topics and payloads of the bus, and the decoding of requests
//! - [`engine`]: what is asked of a transcription engine, and a stub of one
//! - [`whisper_engine`] and [`inference`]: the engine over a whisper.cpp model, up
//!   to the calls into the model itself
//! - [`processor`]: the state machine of utterances
//! - [`laws`]: what holds of every course of utterances
//! - [`daemon`]: what is published, and where
//! - [`payload`]: the payloads of events, field by field
//! - [`lifecycle`]: the course of the daemon on the bus
//! - [`cli`]: the command line
//! - [`text`]: texts that the other modules share

pub mod bus;
pub mod cli;
pub mod confidence;
pub mod config;
pub mod daemon;
pub mod engine;
pub mod inference;
pub mod laws;
pub mod lifecycle;
pub mod payload;
pub mod processor;
pub mod text;
pub mod whisper_engine;

pub use crate::config::{
    validate_model_name, validate_threshold, SttConfig, SttError, Threshold, ALLOWED_MODEL_NAMES,
    DEFAULT_CONFIDENCE_THRESHOLD, DEFAULT_MIC_SOCK, DEFAULT_MODELS_ROOT, DEFAULT_MODEL_NAME,
};
