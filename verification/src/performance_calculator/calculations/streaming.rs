//! Processing of streamed portfolio events.

use vstd::prelude::*;

verus! {

/// Configuration of a streaming processor.
#[derive(Debug, Clone, Copy, PartialEq, Eq, Structural)]
pub struct StreamingConfig;

impl Default for StreamingConfig {
    fn default() -> (c: Self)
        ensures
            c == StreamingConfig,
    {
        StreamingConfig
    }
}

/// Processes streamed events.
#[derive(Debug, Clone, Copy, PartialEq, Eq, Structural)]
pub struct StreamingProcessor;

impl StreamingProcessor {
    /// A processor with the configuration.
    pub fn new(config: StreamingConfig) -> (p: Self)
        ensures
            p == StreamingProcessor,
    {
        StreamingProcessor
    }
}

} // verus!
