//! Typed client library for the ElevenLabs text-to-speech API.
//!
//! A request is accumulated in a [`TextToSpeechBuilder`], finalized into a
//! validated [`TtsRequest`], framed into an [`HttpPost`] whose JSON body is
//! produced by verified code, and the provider's answer is classified into
//! audio bytes or an [`ElevenLabsTTSError`]. Sending the POST is left to the
//! caller's transport.

pub mod client;
pub mod error;
pub mod json;
pub mod models;
pub mod response;
pub mod text;
pub mod types;
pub mod voices;

pub use client::{ElevenLabsTTSClient, HttpPost, TextToSpeechBuilder};
pub use error::ElevenLabsTTSError;
pub use response::{classify_response, parse_retry_after};
pub use types::{StaticVoice, TtsRequest, VoiceSettings};
