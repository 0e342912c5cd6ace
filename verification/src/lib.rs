//! Verified core of a speech-transcription service binding.
//!
//! The library holds the logic that is worth proving: the streaming
//! session state machine with its inbound subscription, the closed-enum
//! parsers that validate caller input before any network dispatch, and
//! the plain-value response types the one-shot lifecycle calls map into.
//! The surrounding async transport and host-runtime adapter live outside
//! the verified core and drive it through the contracts stated here.

pub mod py_types;
pub mod transcribe_stream;
pub mod types;
