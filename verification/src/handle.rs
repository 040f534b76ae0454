use vstd::prelude::*;

verus! {

/// A host-side view of a native widget handle: the opaque address the native
/// toolkit passes to its callbacks, carried as a plain machine word.  The
/// native library alone allocates and frees the object behind it; this crate
/// only passes the address through to bound closures.
#[derive(Clone, Copy, PartialEq, Eq, Structural, Debug)]
pub struct Handle {
    pub raw: usize,
}

impl Handle {
    /// Wraps a raw native handle address so it can be presented to closures.
    pub fn wrap(raw: usize) -> (r: Handle)
        ensures
            r.raw == raw,
    {
        Handle { raw }
    }

    /// The raw native address this handle stands for.
    pub fn raw(&self) -> (r: usize)
        ensures
            r == self.raw,
    {
        self.raw
    }
}

/// The outcome a callback reports back to the native event loop.
#[derive(Clone, Copy, PartialEq, Eq, Structural, Debug)]
pub enum CallbackReturn {
    /// Proceed with the event's default processing.
    Default,
    /// Close the current dialog after the callback returns.
    Close,
    /// Ignore the event's default processing.
    Ignore,
    /// Let the event continue to the next handler.
    Continue,
}

} // verus!
