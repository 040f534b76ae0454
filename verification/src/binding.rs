use vstd::prelude::*;

verus! {

/// One callback's binding state on one widget handle.
///
/// `slot` models the handle's attribute slot for this callback's binding
/// key: it is the single owner of the bound closure and the single source of
/// truth for whether a handler is installed.  `trampoline` models the
/// handle's native function-pointer table entry for the callback name: true
/// exactly while the native library would route the event to this binding's
/// trampoline.
pub struct Binding<F> {
    /// The attribute slot: owns the bound closure, if one is installed.
    pub slot: Option<F>,
    /// Whether the native callback table points at this binding's trampoline.
    pub trampoline: bool,
}

/// What a release does: it returns exactly the closure that was bound, and
/// leaves both the slot and the native function-pointer entry cleared.
pub open spec fn release_rel<F>(pre: Binding<F>, post: Binding<F>, prev: Option<F>) -> bool {
    &&& prev == pre.slot
    &&& post.slot is None
    &&& !post.trampoline
}

/// What a register does: it returns exactly the closure that was bound
/// before, installs `cb` as the new owner of the slot, and installs the
/// trampoline precisely when a closure is being installed.
pub open spec fn register_rel<F>(pre: Binding<F>, post: Binding<F>, cb: Option<F>, prev: Option<F>) -> bool {
    &&& prev == pre.slot
    &&& post.slot == cb
    &&& post.trampoline == (cb is Some)
}

impl<F> Binding<F> {
    /// A binding is well formed when the trampoline is installed exactly
    /// while a closure is stored.  Every operation below preserves this, so
    /// the native library can never fire a trampoline whose slot is empty.
    pub open spec fn wf(self) -> bool {
        self.trampoline == (self.slot is Some)
    }

    /// A fresh binding with no closure stored and no trampoline installed.
    pub fn new() -> (r: Binding<F>)
        ensures
            r.slot is None,
            !r.trampoline,
            r.wf(),
    {
        Binding { slot: None, trampoline: false }
    }

    /// Detaches and returns the bound closure, if any.
    ///
    /// This is the one place ownership transfers back from native storage to
    /// the host caller.  Safe on a binding that never had a closure
    /// installed: it then returns nothing and changes nothing.
    pub fn release(&mut self) -> (prev: Option<F>)
        ensures
            release_rel(*old(self), *final(self), prev),
            final(self).wf(),
    {
        self.trampoline = false;
        self.slot.take()
    }

    /// Installs `cb` as the handler, or uninstalls the handler when `cb` is
    /// none, and returns the previously bound closure.
    ///
    /// The release always runs first, so a previously installed closure is
    /// handed back to the caller rather than leaked; the trampoline ends up
    /// installed exactly when a closure was installed.
    pub fn register(&mut self, cb: Option<F>) -> (prev: Option<F>)
        ensures
            register_rel(*old(self), *final(self), cb, prev),
            final(self).wf(),
    {
        let prev = self.release();
        let installing = cb.is_some();
        self.slot = cb;
        self.trampoline = installing;
        prev
    }

    /// Borrows the bound closure on behalf of a trampoline that the native
    /// library has just fired.  A well-formed binding whose trampoline is
    /// installed always holds a closure, so the slot can never be found
    /// empty here.
    pub fn bound(&self) -> (f: &F)
        requires
            self.trampoline,
            self.wf(),
        ensures
            self.slot == Some(*f),
    {
        match &self.slot {
            Some(f) => f,
            None => vstd::pervasive::unreached(),
        }
    }
}

/// Release is idempotent: of two releases in a row, the first returns
/// whatever closure was bound and the second returns nothing.
pub proof fn lemma_release_idempotent<F>(
    s0: Binding<F>,
    s1: Binding<F>,
    s2: Binding<F>,
    p1: Option<F>,
    p2: Option<F>,
)
    requires
        release_rel(s0, s1, p1),
        release_rel(s1, s2, p2),
    ensures
        p1 == s0.slot,
        p2 is None,
        s2.slot is None,
{
}

/// Of two registers in a row on one binding, the second hands back exactly
/// the closure the first installed, and only the second's closure remains
/// active afterwards.
pub proof fn lemma_register_supersedes<F>(
    s0: Binding<F>,
    s1: Binding<F>,
    s2: Binding<F>,
    c1: Option<F>,
    c2: Option<F>,
    p1: Option<F>,
    p2: Option<F>,
)
    requires
        register_rel(s0, s1, c1, p1),
        register_rel(s1, s2, c2, p2),
    ensures
        p2 == c1,
        s2.slot == c2,
{
}

/// A well-formed binding whose trampoline is installed always holds a
/// closure: the native library can only reach dispatch while the slot is
/// occupied.
pub proof fn lemma_trampoline_implies_bound<F>(b: Binding<F>)
    requires
        b.wf(),
        b.trampoline,
    ensures
        b.slot is Some,
{
}

/// After a release the trampoline is cleared, so the native library cannot
/// reach dispatch for this callback again until a new closure is registered.
pub proof fn lemma_no_dispatch_after_release<F>(pre: Binding<F>, post: Binding<F>, prev: Option<F>)
    requires
        release_rel(pre, post, prev),
    ensures
        !post.trampoline,
{
}

/// Registering "none" uninstalls the trampoline along with the slot, so an
/// uninstalled handler can never be fired.
pub proof fn lemma_register_none_clears_trampoline<F>(
    pre: Binding<F>,
    post: Binding<F>,
    prev: Option<F>,
)
    requires
        register_rel(pre, post, None, prev),
    ensures
        !post.trampoline,
        post.slot is None,
{
}

} // verus!
