//! A minimal persisted counter: a 32-bit value stored as the leading bytes of
//! an externally owned account buffer, driven by single-byte instructions
//! (increment, decrement with a floor at zero, or view).

pub mod codec;
pub mod counter;
pub mod laws;
pub mod processor;
