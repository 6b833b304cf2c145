use vstd::prelude::*;

verus! {

/// Maximum depth of the call stack.
pub const STACK_DEPTH: usize = 16;

/// The call stack: return addresses, the last pushed on top. A push onto a
/// full stack of `STACK_DEPTH` addresses is refused, so it never holds more.
pub struct Stack {
    inner: Vec<u16>,
}

impl View for Stack {
    type V = Seq<u16>;

    closed spec fn view(&self) -> Seq<u16> {
        self.inner@
    }
}

impl Stack {
    pub fn new() -> (r: Stack)
        ensures
            r@ == Seq::<u16>::empty(),
    {
        Stack { inner: Vec::with_capacity(STACK_DEPTH) }
    }

    /// Number of addresses on the stack.
    pub fn len(&self) -> (r: usize)
        ensures
            r == self@.len(),
    {
        self.inner.len()
    }

    /// The address on top, if any.
    pub fn peek(&self) -> (r: Option<u16>)
        ensures
            self@.len() == 0 ==> r is None,
            self@.len() > 0 ==> r == Some(self@.last()),
    {
        if self.inner.len() == 0 {
            None
        } else {
            Some(self.inner[self.inner.len() - 1])
        }
    }

    /// Pushes `value` unless the stack is full; returns whether it did.
    pub fn push(&mut self, value: u16) -> (r: bool)
        ensures
            r == (old(self)@.len() < STACK_DEPTH),
            r ==> final(self)@ == old(self)@.push(value),
            !r ==> final(self)@ == old(self)@,
    {
        if self.inner.len() >= STACK_DEPTH {
            return false;
        }
        self.inner.push(value);
        true
    }

    /// Removes and returns the address on top, or `None` on an empty stack.
    pub fn pop(&mut self) -> (r: Option<u16>)
        ensures
            old(self)@.len() == 0 ==> r is None && final(self)@ == old(self)@,
            old(self)@.len() > 0 ==> r == Some(old(self)@.last()) && final(self)@ == old(self)@.drop_last(),
    {
        self.inner.pop()
    }
}

} // verus!
