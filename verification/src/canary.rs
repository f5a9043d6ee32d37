//! A place where messages about failed validation are kept until a test
//! harness asks for them.
//!
//! It is a value that is handed to whoever reports and to whoever reads. It
//! is for tests alone and is no way to find out whether an operation failed.

use vstd::prelude::*;

verus! {

/// The messages that have come in since they were last taken out, oldest
/// first.
#[derive(Debug)]
pub struct ValidationCanary {
    messages: Vec<String>,
}

impl View for ValidationCanary {
    type V = Seq<String>;

    closed spec fn view(&self) -> Seq<String> {
        self.messages@
    }
}

impl ValidationCanary {
    /// A canary without messages.
    pub fn new() -> (r: ValidationCanary)
        ensures
            r@ == Seq::<String>::empty(),
    {
        ValidationCanary { messages: Vec::new() }
    }

    /// Keeps a message.
    pub fn add(&mut self, msg: String)
        ensures
            final(self)@ == old(self)@.push(msg),
    {
        self.messages.push(msg);
    }

    /// The number of messages that are kept.
    pub fn len(&self) -> (r: usize)
        ensures
            r == self@.len(),
    {
        self.messages.len()
    }

    /// Hands out every message that has come in since the last call, oldest
    /// first, and keeps none.
    pub fn get_and_reset(&mut self) -> (r: Vec<String>)
        ensures
            r@ == old(self)@,
            final(self)@ == Seq::<String>::empty(),
    {
        let mut taken: Vec<String> = Vec::new();
        core::mem::swap(&mut self.messages, &mut taken);
        taken
    }
}

} // verus!
