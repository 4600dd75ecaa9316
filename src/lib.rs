//! Windowing of a live audio stream and the integer-exact parts of a
//! transducer speech recogniser: vocabulary detokenisation, filterbank
//! layout, feature reshaping and greedy token selection.

pub mod decoder;
pub mod engine;
pub mod error;
pub mod features;
pub mod fft;
pub mod prompt;
pub mod slot;
pub mod streaming;
pub mod text;
pub mod vocabulary;
