//! The queue of activation tokens that the input side fills and the loop
//! drains once per iteration.

use vstd::prelude::*;

verus! {

/// One tap on the touch screen.
#[derive(Clone, Copy, Debug, PartialEq, Eq, Structural)]
pub struct ActivationToken;

/// Tokens not yet seen by the loop; their order does not matter.
pub struct ActivationQueue {
    tokens: Vec<ActivationToken>,
}

impl ActivationQueue {
    /// Number of tokens waiting.
    pub closed spec fn pending(&self) -> nat {
        self.tokens@.len()
    }

    pub fn new() -> (r: ActivationQueue)
        ensures
            r.pending() == 0,
    {
        ActivationQueue { tokens: Vec::new() }
    }

    /// Appends one token.
    pub fn push(&mut self)
        ensures
            final(self).pending() == old(self).pending() + 1,
    {
        self.tokens.push(ActivationToken);
    }

    pub fn len(&self) -> (r: usize)
        ensures
            r == self.pending(),
    {
        self.tokens.len()
    }

    pub fn is_empty(&self) -> (r: bool)
        ensures
            r == (self.pending() == 0),
    {
        self.tokens.len() == 0
    }

    /// Takes every waiting token at once: the result says whether there was
    /// any, however many there were.
    pub fn drain(&mut self) -> (r: bool)
        ensures
            r == (old(self).pending() > 0),
            final(self).pending() == 0,
    {
        let any = self.tokens.len() > 0;
        self.tokens.clear();
        any
    }
}

} // verus!
