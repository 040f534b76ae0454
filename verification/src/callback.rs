use vstd::prelude::*;
use crate::binding::Binding;
use crate::binding::register_rel;
use crate::binding::release_rel;
use crate::handle::CallbackReturn;
use crate::handle::Handle;

verus! {

/// One observable step of the binding protocol, as recorded in a table's
/// ghost history.  `A` is the type of closures bound to the activation
/// callback, `D` the type of closures bound to the destruction callback.
#[allow(inconsistent_fields)]
pub enum Event<A, D> {
    /// A register ran on the activation binding: `new` was installed and
    /// `prev` handed back.
    ActionRegistered { new: Option<A>, prev: Option<A> },
    /// A release ran on the activation binding and handed back `prev`.
    ActionReleased { prev: Option<A> },
    /// The activation trampoline fired: `cb` was invoked with `arg` and its
    /// result `ret` was propagated to the native caller.
    ActionInvoked { cb: A, arg: Handle, ret: CallbackReturn },
    /// A register ran on the destruction binding.
    DestroyRegistered { new: Option<D>, prev: Option<D> },
    /// A release ran on the destruction binding and handed back `prev`.
    DestroyReleased { prev: Option<D> },
    /// The destruction closure `cb` was invoked with `arg`.
    DestroyInvoked { cb: D, arg: Handle },
}

/// The complete binding state this layer keeps for one widget handle: one
/// binding per supported callback name, plus a ghost history of the protocol
/// steps taken on the handle, oldest first.  The teardown-ordering
/// obligations are stated over that history.
pub struct CallbackTable<A, D> {
    /// The binding for the activation callback.
    pub action: Binding<A>,
    /// The binding for the user-facing destruction callback.
    pub destroy_cb: Binding<D>,
    /// Everything that has happened to this table, in order.
    pub history: Ghost<Seq<Event<A, D>>>,
}

impl<A, D> CallbackTable<A, D> {
    /// Both bindings keep trampoline and slot in step.
    pub open spec fn wf(self) -> bool {
        self.action.wf() && self.destroy_cb.wf()
    }

    /// A table for a handle on which nothing has been bound yet.
    pub fn new() -> (r: CallbackTable<A, D>)
        ensures
            r.action.slot is None,
            !r.action.trampoline,
            r.destroy_cb.slot is None,
            !r.destroy_cb.trampoline,
            r.wf(),
            r.history@ == Seq::<Event<A, D>>::empty(),
    {
        CallbackTable {
            action: Binding::new(),
            destroy_cb: Binding::new(),
            history: Ghost(Seq::empty()),
        }
    }
}

/// What setting the activation listener does to a table.
pub open spec fn set_action_rel<A, D>(
    pre: CallbackTable<A, D>,
    post: CallbackTable<A, D>,
    cb: Option<A>,
    prev: Option<A>,
) -> bool {
    &&& register_rel(pre.action, post.action, cb, prev)
    &&& post.destroy_cb == pre.destroy_cb
    &&& post.history@ == pre.history@.push(Event::ActionRegistered { new: cb, prev: prev })
}

/// What releasing the activation binding does to a table.
pub open spec fn drop_action_rel<A, D>(
    pre: CallbackTable<A, D>,
    post: CallbackTable<A, D>,
    prev: Option<A>,
) -> bool {
    &&& release_rel(pre.action, post.action, prev)
    &&& post.destroy_cb == pre.destroy_cb
    &&& post.history@ == pre.history@.push(Event::ActionReleased { prev: prev })
}

/// What one firing of the activation trampoline does to a table: the bound
/// closure — and no other — is invoked once, and the table's bindings are
/// left untouched.
pub open spec fn listener_action_rel<A, D>(
    pre: CallbackTable<A, D>,
    post: CallbackTable<A, D>,
    h: Handle,
    r: CallbackReturn,
) -> bool {
    &&& pre.action.slot is Some
    &&& post.action == pre.action
    &&& post.destroy_cb == pre.destroy_cb
    &&& post.history@ == pre.history@.push(
        Event::ActionInvoked { cb: pre.action.slot->Some_0, arg: h, ret: r },
    )
}

/// What setting the destruction listener does to a table.
pub open spec fn set_destroy_cb_rel<A, D>(
    pre: CallbackTable<A, D>,
    post: CallbackTable<A, D>,
    cb: Option<D>,
    prev: Option<D>,
) -> bool {
    &&& register_rel(pre.destroy_cb, post.destroy_cb, cb, prev)
    &&& post.action == pre.action
    &&& post.history@ == pre.history@.push(Event::DestroyRegistered { new: cb, prev: prev })
}

/// What releasing the destruction binding does to a table.
pub open spec fn drop_destroy_cb_rel<A, D>(
    pre: CallbackTable<A, D>,
    post: CallbackTable<A, D>,
    prev: Option<D>,
) -> bool {
    &&& release_rel(pre.destroy_cb, post.destroy_cb, prev)
    &&& post.action == pre.action
    &&& post.history@ == pre.history@.push(Event::DestroyReleased { prev: prev })
}

/// What one firing of the destruction trampoline does to a table.
pub open spec fn listener_destroy_cb_rel<A, D>(
    pre: CallbackTable<A, D>,
    post: CallbackTable<A, D>,
    h: Handle,
) -> bool {
    &&& pre.destroy_cb.slot is Some
    &&& post.action == pre.action
    &&& post.destroy_cb == pre.destroy_cb
    &&& post.history@ == pre.history@.push(
        Event::DestroyInvoked { cb: pre.destroy_cb.slot->Some_0, arg: h },
    )
}

/// What tearing a handle down does to a table: both bindings end cleared,
/// the activation binding is released strictly before the destruction
/// binding, and the destruction closure — if one was bound — is invoked
/// exactly once, after its own slot was cleared.
pub open spec fn on_destroy_rel<A, D>(
    pre: CallbackTable<A, D>,
    post: CallbackTable<A, D>,
    h: Handle,
) -> bool {
    &&& post.action.slot is None
    &&& !post.action.trampoline
    &&& post.destroy_cb.slot is None
    &&& !post.destroy_cb.trampoline
    &&& match pre.destroy_cb.slot {
        Some(d) => post.history@ == pre.history@ + seq![
            Event::ActionReleased { prev: pre.action.slot },
            Event::DestroyReleased { prev: pre.destroy_cb.slot },
            Event::DestroyInvoked { cb: d, arg: h },
        ],
        None => post.history@ == pre.history@ + seq![
            Event::ActionReleased { prev: pre.action.slot },
            Event::DestroyReleased { prev: None },
        ],
    }
}

/// Sets the host listener for the activation callback.
///
/// Installs `cb` when it is present, removes the current listener when it is
/// none, and in either case first detaches and returns the previously
/// installed closure so it is never leaked and never invoked again.
pub fn set_action<A, D>(t: &mut CallbackTable<A, D>, cb: Option<A>) -> (prev: Option<A>)
    ensures
        set_action_rel(*old(t), *final(t), cb, prev),
        final(t).action.wf(),
{
    let ghost pre = *t;
    let ghost cb_in = cb;
    let prev = t.action.register(cb);
    t.history = Ghost(pre.history@.push(Event::ActionRegistered { new: cb_in, prev: prev }));
    prev
}

/// Releases the activation binding: detaches and returns the bound closure,
/// or returns nothing if none was bound.
pub fn drop_action<A, D>(t: &mut CallbackTable<A, D>) -> (prev: Option<A>)
    ensures
        drop_action_rel(*old(t), *final(t), prev),
        final(t).action.wf(),
{
    let ghost pre = *t;
    let prev = t.action.release();
    t.history = Ghost(pre.history@.push(Event::ActionReleased { prev: prev }));
    prev
}

/// The verified core of the activation trampoline, run when the native
/// toolkit fires the activation event on `h`.
///
/// The native library only fires a trampoline it has installed, so the
/// binding is required to have its trampoline set; well-formedness then
/// guarantees the slot holds a closure.  The closure is invoked once, with
/// the wrapped handle, and its result is propagated verbatim to the native
/// caller.
pub fn listener_action<A: Fn(Handle) -> CallbackReturn, D>(
    t: &mut CallbackTable<A, D>,
    h: Handle,
) -> (r: CallbackReturn)
    requires
        old(t).action.trampoline,
        old(t).action.wf(),
        old(t).action.slot matches Some(f) && call_requires(f, (h,)),
    ensures
        listener_action_rel(*old(t), *final(t), h, r),
        old(t).action.slot matches Some(f) && call_ensures(f, (h,), r),
{
    let ghost pre = *t;
    let f = t.action.bound();
    let r = f(h);
    t.history = Ghost(
        pre.history@.push(Event::ActionInvoked { cb: pre.action.slot->Some_0, arg: h, ret: r }),
    );
    r
}

/// Sets the host listener for the user-facing destruction callback.
pub fn set_destroy_cb<A, D>(t: &mut CallbackTable<A, D>, cb: Option<D>) -> (prev: Option<D>)
    ensures
        set_destroy_cb_rel(*old(t), *final(t), cb, prev),
        final(t).destroy_cb.wf(),
{
    let ghost pre = *t;
    let ghost cb_in = cb;
    let prev = t.destroy_cb.register(cb);
    t.history = Ghost(pre.history@.push(Event::DestroyRegistered { new: cb_in, prev: prev }));
    prev
}

/// Releases the destruction binding: detaches and returns the bound closure,
/// or returns nothing if none was bound.
pub fn drop_destroy_cb<A, D>(t: &mut CallbackTable<A, D>) -> (prev: Option<D>)
    ensures
        drop_destroy_cb_rel(*old(t), *final(t), prev),
        final(t).destroy_cb.wf(),
{
    let ghost pre = *t;
    let prev = t.destroy_cb.release();
    t.history = Ghost(pre.history@.push(Event::DestroyReleased { prev: prev }));
    prev
}

/// The verified core of the destruction trampoline.  The destruction
/// callback's contract with the native toolkit ignores the closure's result:
/// the closure is invoked for its effects and the native caller is always
/// told to proceed with default processing.
pub fn listener_destroy_cb<A, D: Fn(Handle)>(
    t: &mut CallbackTable<A, D>,
    h: Handle,
) -> (r: CallbackReturn)
    requires
        old(t).destroy_cb.trampoline,
        old(t).destroy_cb.wf(),
        old(t).destroy_cb.slot matches Some(f) && call_requires(f, (h,)),
    ensures
        listener_destroy_cb_rel(*old(t), *final(t), h),
        r == CallbackReturn::Default,
        old(t).destroy_cb.slot matches Some(f) && call_ensures(f, (h,), ()),
{
    let ghost pre = *t;
    let f = t.destroy_cb.bound();
    f(h);
    t.history = Ghost(
        pre.history@.push(Event::DestroyInvoked { cb: pre.destroy_cb.slot->Some_0, arg: h }),
    );
    CallbackReturn::Default
}

/// Frees a handle's callback resources as the native library destroys it.
///
/// Every other binding is released first; the destruction binding is
/// released strictly last, because releasing it frees binding-internal state
/// that the other releases may still need.  The native toolkit fires its
/// internal "free the binding" notification before the user-facing
/// destruction event, so the user's destruction closure would never be
/// dispatched normally: the coordinator itself invokes it — exactly once,
/// with the wrapped handle, after its slot is already cleared — before the
/// closure is discarded.
pub fn on_destroy<A, D: Fn(Handle)>(t: &mut CallbackTable<A, D>, h: Handle)
    requires
        old(t).destroy_cb.slot matches Some(d) ==> call_requires(d, (h,)),
    ensures
        on_destroy_rel(*old(t), *final(t), h),
        final(t).wf(),
        old(t).destroy_cb.slot matches Some(d) ==> call_ensures(d, (h,), ()),
{
    let ghost pre = *t;
    let prev_action = t.action.release();
    t.history = Ghost(pre.history@.push(Event::ActionReleased { prev: prev_action }));

    let prev_destroy = t.destroy_cb.release();
    t.history = Ghost(t.history@.push(Event::DestroyReleased { prev: prev_destroy }));

    match prev_destroy {
        Some(cb) => {
            cb(h);
            t.history = Ghost(t.history@.push(Event::DestroyInvoked { cb: cb, arg: h }));
            proof {
                assert(t.history@ =~= pre.history@ + seq![
                    Event::ActionReleased { prev: pre.action.slot },
                    Event::DestroyReleased { prev: pre.destroy_cb.slot },
                    Event::DestroyInvoked { cb: pre.destroy_cb.slot->Some_0, arg: h },
                ]);
            }
        },
        None => {
            proof {
                assert(t.history@ =~= pre.history@ + seq![
                    Event::ActionReleased { prev: pre.action.slot },
                    Event::DestroyReleased { prev: None },
                ]);
            }
        },
    }
}

} // verus!
