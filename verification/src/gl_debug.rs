//! Buffer into which OpenGL debug messages are collected.
//!
//! The driver's debug callback hands messages to the host, which records
//! each one here; once per frame the host takes the batch and writes it to
//! its diagnostics output.  This is not to be confused with a vertex buffer.

use vstd::prelude::*;

verus! {

/// Buffer of collected OpenGL debug messages, oldest first.
pub struct GlDebugMessageBuffer {
    messages: Vec<String>,
}

impl GlDebugMessageBuffer {
    /// The collected messages, oldest first.
    pub closed spec fn messages(&self) -> Seq<String> {
        self.messages@
    }

    /// Create an empty buffer.
    pub fn new() -> (r: GlDebugMessageBuffer)
        ensures
            r.messages().len() == 0,
    {
        GlDebugMessageBuffer { messages: Vec::new() }
    }

    /// Record one debug message.
    pub fn record(&mut self, message: String)
        ensures
            final(self).messages() == old(self).messages().push(message),
    {
        self.messages.push(message);
    }

    /// Take all collected messages, oldest first, and clear the buffer.
    pub fn flush(&mut self) -> (r: Vec<String>)
        ensures
            r@ == old(self).messages(),
            final(self).messages().len() == 0,
    {
        let mut drained: Vec<String> = Vec::new();
        std::mem::swap(&mut drained, &mut self.messages);
        drained
    }
}

} // verus!
