//! The library's own error type for reading model configuration.
use vstd::prelude::*;

verus! {

/// An error in a model's configuration, with its message.
#[derive(Debug)]
pub enum TranscribeError {
    Config(String),
}

} // verus!
