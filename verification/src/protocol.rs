use vstd::prelude::*;
use crate::callback::CallbackTable;
use crate::callback::Event;
use crate::callback::drop_action_rel;
use crate::callback::drop_destroy_cb_rel;
use crate::callback::listener_action_rel;
use crate::callback::listener_destroy_cb_rel;
use crate::callback::on_destroy_rel;
use crate::callback::set_action_rel;
use crate::callback::set_destroy_cb_rel;
use crate::handle::CallbackReturn;
use crate::handle::Handle;

verus! {

/// One operation of the binding protocol, at the specification level.  A run
/// of these operations is what the laws below quantify over.
pub enum ProtocolOp<A, D> {
    /// Register the carried closure — or none, which uninstalls — as the
    /// activation handler.
    SetAction(Option<A>),
    /// Release the activation binding.
    DropAction,
    /// The native toolkit fires the activation event on the handle, and the
    /// bound closure answers with the given result.
    DispatchAction(Handle, CallbackReturn),
    /// Register the carried closure — or none, which uninstalls — as the
    /// destruction handler.
    SetDestroy(Option<D>),
    /// Release the destruction binding.
    DropDestroy,
    /// The native toolkit fires the destruction event on the handle.
    DispatchDestroy(Handle),
    /// The native toolkit destroys the handle and the teardown coordinator
    /// runs.
    Teardown(Handle),
}

/// How one operation steps a table: exactly the postcondition of the
/// corresponding executable function.
pub open spec fn step<A, D>(
    pre: CallbackTable<A, D>,
    post: CallbackTable<A, D>,
    op: ProtocolOp<A, D>,
) -> bool {
    match op {
        ProtocolOp::SetAction(cb) => set_action_rel(pre, post, cb, pre.action.slot),
        ProtocolOp::DropAction => drop_action_rel(pre, post, pre.action.slot),
        ProtocolOp::DispatchAction(h, r) => listener_action_rel(pre, post, h, r),
        ProtocolOp::SetDestroy(cb) => set_destroy_cb_rel(pre, post, cb, pre.destroy_cb.slot),
        ProtocolOp::DropDestroy => drop_destroy_cb_rel(pre, post, pre.destroy_cb.slot),
        ProtocolOp::DispatchDestroy(h) => listener_destroy_cb_rel(pre, post, h),
        ProtocolOp::Teardown(h) => on_destroy_rel(pre, post, h),
    }
}

/// A run of the protocol: `states` holds the table states seen in order, and
/// `ops[i]` steps `states[i]` to `states[i + 1]`.
pub open spec fn valid_run<A, D>(
    states: Seq<CallbackTable<A, D>>,
    ops: Seq<ProtocolOp<A, D>>,
) -> bool {
    &&& states.len() == ops.len() + 1
    &&& forall|i: int|
        0 <= i < ops.len() ==> step(states[i], states[i + 1], #[trigger] ops[i])
}

/// Whether an event records an invocation of the activation closure `c`.
pub open spec fn invokes_action_closure<A, D>(e: Event<A, D>, c: A) -> bool {
    e matches Event::ActionInvoked { cb, arg: _, ret: _ } && cb == c
}

/// Whether an event records an invocation of the destruction closure `c`.
pub open spec fn invokes_destroy_closure<A, D>(e: Event<A, D>, c: D) -> bool {
    e matches Event::DestroyInvoked { cb, arg: _ } && cb == c
}

/// Well-formedness is an invariant of the protocol: every operation leaves
/// each binding's trampoline installed exactly while its slot holds a
/// closure.  From a well-formed state — a fresh table included — no run can
/// reach a state in which a trampoline is installed over an empty slot.
pub proof fn lemma_wf_invariant<A, D>(
    states: Seq<CallbackTable<A, D>>,
    ops: Seq<ProtocolOp<A, D>>,
)
    requires
        valid_run(states, ops),
        states[0].wf(),
    ensures
        forall|i: int| 0 <= i < states.len() ==> (#[trigger] states[i]).wf(),
    decreases ops.len(),
{
    if ops.len() > 0 {
        assert(step(states[0], states[1], ops[0]));
        assert(states[1].wf()) by {
            match ops[0] {
                ProtocolOp::SetAction(cb) => {},
                ProtocolOp::DropAction => {},
                ProtocolOp::DispatchAction(h, r) => {},
                ProtocolOp::SetDestroy(cb) => {},
                ProtocolOp::DropDestroy => {},
                ProtocolOp::DispatchDestroy(h) => {},
                ProtocolOp::Teardown(h) => {},
            }
        }
        let tail_states = states.subrange(1, states.len() as int);
        let tail_ops = ops.subrange(1, ops.len() as int);
        assert forall|i: int|
            0 <= i < tail_ops.len() implies step(
            tail_states[i],
            tail_states[i + 1],
            #[trigger] tail_ops[i],
        ) by {
            assert(step(states[i + 1], states[i + 2], ops[i + 1]));
        }
        lemma_wf_invariant(tail_states, tail_ops);
        assert forall|i: int| 0 <= i < states.len() implies (#[trigger] states[i]).wf() by {
            if i > 0 {
                assert(tail_states[i - 1].wf());
            }
        }
    }
}

/// Dispatch after a release, with no register in between, cannot happen.
/// A release — and a register of none — leaves the trampoline cleared, and
/// in a well-formed binding a cleared trampoline means an empty slot, so no
/// dispatch step exists out of such a state: the native library has nothing
/// left to fire for this callback.
pub proof fn lemma_no_dispatch_after_released<A, D>(
    pre: CallbackTable<A, D>,
    post: CallbackTable<A, D>,
    h: Handle,
    r: CallbackReturn,
)
    requires
        pre.action.wf(),
        !pre.action.trampoline,
    ensures
        !step(pre, post, ProtocolOp::DispatchAction(h, r)),
{
}

/// The destruction-side twin: with the destruction trampoline cleared, no
/// destruction dispatch step exists.
pub proof fn lemma_no_destroy_dispatch_after_released<A, D>(
    pre: CallbackTable<A, D>,
    post: CallbackTable<A, D>,
    h: Handle,
)
    requires
        pre.destroy_cb.wf(),
        !pre.destroy_cb.trampoline,
    ensures
        !step(pre, post, ProtocolOp::DispatchDestroy(h)),
{
}

/// A superseded activation closure stays dead.  Starting from any state in
/// which `c` is not the bound activation handler, a run that never registers
/// `c` again leaves `c` unbound and never invokes it: every event the run
/// adds to the history invokes some other closure or none at all.  In
/// particular, once a register or a release has handed a closure back, no
/// later dispatch can reach it.
pub proof fn lemma_superseded_action_never_invoked<A, D>(
    states: Seq<CallbackTable<A, D>>,
    ops: Seq<ProtocolOp<A, D>>,
    c: A,
)
    requires
        valid_run(states, ops),
        states[0].action.slot != Some(c),
        forall|i: int| 0 <= i < ops.len() ==> ops[i] != ProtocolOp::<A, D>::SetAction(Some(c)),
    ensures
        states.last().action.slot != Some(c),
        states[0].history@.len() <= states.last().history@.len(),
        states.last().history@.subrange(0, states[0].history@.len() as int) == states[0].history@,
        forall|j: int|
            states[0].history@.len() <= j < states.last().history@.len()
                ==> !invokes_action_closure(#[trigger] states.last().history@[j], c),
    decreases ops.len(),
{
    if ops.len() == 0 {
        assert(states.last() == states[0]);
        assert(states.last().history@.subrange(0, states[0].history@.len() as int)
            =~= states[0].history@);
    } else {
        let s0 = states[0];
        let s1 = states[1];
        assert(step(s0, s1, ops[0]));
        let tail_states = states.subrange(1, states.len() as int);
        let tail_ops = ops.subrange(1, ops.len() as int);
        assert forall|i: int|
            0 <= i < tail_ops.len() implies #[trigger] step(
            tail_states[i],
            tail_states[i + 1],
            tail_ops[i],
        ) by {
            assert(step(states[i + 1], states[i + 2], ops[i + 1]));
        }
        // The first step neither binds `c` nor invokes it.
        assert(s1.action.slot != Some(c)) by {
            match ops[0] {
                ProtocolOp::SetAction(cb) => {
                    assert(cb != Some(c));
                },
                _ => {},
            }
        }
        assert(s0.history@.len() <= s1.history@.len());
        assert(s1.history@.subrange(0, s0.history@.len() as int) =~= s0.history@);
        assert forall|j: int|
            s0.history@.len() <= j < s1.history@.len() implies !invokes_action_closure(
            #[trigger] s1.history@[j],
            c,
        ) by {
            match ops[0] {
                ProtocolOp::DispatchAction(h, r) => {
                    assert(s1.history@[j] == Event::<A, D>::ActionInvoked {
                        cb: s0.action.slot->Some_0,
                        arg: h,
                        ret: r,
                    });
                },
                _ => {},
            }
        }
        lemma_superseded_action_never_invoked(tail_states, tail_ops, c);
        assert(states.last() == tail_states.last());
        let sl = states.last();
        assert(sl.history@.subrange(0, s1.history@.len() as int) == s1.history@);
        assert(sl.history@.subrange(0, s0.history@.len() as int) =~= s0.history@) by {
            assert forall|j: int| 0 <= j < s0.history@.len() implies sl.history@[j]
                == s0.history@[j] by {
                assert(sl.history@.subrange(0, s1.history@.len() as int)[j] == sl.history@[j]);
                assert(s1.history@.subrange(0, s0.history@.len() as int)[j] == s1.history@[j]);
            }
        }
        assert forall|j: int|
            s0.history@.len() <= j < sl.history@.len() implies !invokes_action_closure(
            #[trigger] sl.history@[j],
            c,
        ) by {
            if j < s1.history@.len() {
                assert(sl.history@.subrange(0, s1.history@.len() as int)[j] == sl.history@[j]);
                assert(sl.history@[j] == s1.history@[j]);
            }
        }
    }
}

/// A superseded destruction closure stays dead, through dispatch and through
/// teardown alike: starting from any state in which `c` is not the bound
/// destruction handler, a run that never registers `c` again leaves `c`
/// unbound and never invokes it.
pub proof fn lemma_superseded_destroy_never_invoked<A, D>(
    states: Seq<CallbackTable<A, D>>,
    ops: Seq<ProtocolOp<A, D>>,
    c: D,
)
    requires
        valid_run(states, ops),
        states[0].destroy_cb.slot != Some(c),
        forall|i: int| 0 <= i < ops.len() ==> ops[i] != ProtocolOp::<A, D>::SetDestroy(Some(c)),
    ensures
        states.last().destroy_cb.slot != Some(c),
        states[0].history@.len() <= states.last().history@.len(),
        states.last().history@.subrange(0, states[0].history@.len() as int) == states[0].history@,
        forall|j: int|
            states[0].history@.len() <= j < states.last().history@.len()
                ==> !invokes_destroy_closure(#[trigger] states.last().history@[j], c),
    decreases ops.len(),
{
    if ops.len() == 0 {
        assert(states.last() == states[0]);
        assert(states.last().history@.subrange(0, states[0].history@.len() as int)
            =~= states[0].history@);
    } else {
        let s0 = states[0];
        let s1 = states[1];
        assert(step(s0, s1, ops[0]));
        let tail_states = states.subrange(1, states.len() as int);
        let tail_ops = ops.subrange(1, ops.len() as int);
        assert forall|i: int|
            0 <= i < tail_ops.len() implies #[trigger] step(
            tail_states[i],
            tail_states[i + 1],
            tail_ops[i],
        ) by {
            assert(step(states[i + 1], states[i + 2], ops[i + 1]));
        }
        assert(s1.destroy_cb.slot != Some(c)) by {
            match ops[0] {
                ProtocolOp::SetDestroy(cb) => {
                    assert(cb != Some(c));
                },
                _ => {},
            }
        }
        assert(s0.history@.len() <= s1.history@.len());
        assert(s1.history@.subrange(0, s0.history@.len() as int) =~= s0.history@);
        assert forall|j: int|
            s0.history@.len() <= j < s1.history@.len() implies !invokes_destroy_closure(
            #[trigger] s1.history@[j],
            c,
        ) by {
            match ops[0] {
                ProtocolOp::DispatchDestroy(h) => {
                    assert(s1.history@[j] == Event::<A, D>::DestroyInvoked {
                        cb: s0.destroy_cb.slot->Some_0,
                        arg: h,
                    });
                },
                ProtocolOp::Teardown(h) => {},
                _ => {},
            }
        }
        lemma_superseded_destroy_never_invoked(tail_states, tail_ops, c);
        assert(states.last() == tail_states.last());
        let sl = states.last();
        assert(sl.history@.subrange(0, s1.history@.len() as int) == s1.history@);
        assert(sl.history@.subrange(0, s0.history@.len() as int) =~= s0.history@) by {
            assert forall|j: int| 0 <= j < s0.history@.len() implies sl.history@[j]
                == s0.history@[j] by {
                assert(sl.history@.subrange(0, s1.history@.len() as int)[j] == sl.history@[j]);
                assert(s1.history@.subrange(0, s0.history@.len() as int)[j] == s1.history@[j]);
            }
        }
        assert forall|j: int|
            s0.history@.len() <= j < sl.history@.len() implies !invokes_destroy_closure(
            #[trigger] sl.history@[j],
            c,
        ) by {
            if j < s1.history@.len() {
                assert(sl.history@.subrange(0, s1.history@.len() as int)[j] == sl.history@[j]);
                assert(sl.history@[j] == s1.history@[j]);
            }
        }
    }
}

/// Teardown ordering.  With a destruction closure bound, destroying the
/// handle appends exactly three events to the history: the activation
/// binding is released first, the destruction binding is released second,
/// and the destruction closure is invoked — with the wrapped handle — only
/// after its slot was cleared.  No other invocation of the destruction
/// closure is added: it runs exactly once.
pub proof fn lemma_teardown_order<A, D>(
    pre: CallbackTable<A, D>,
    post: CallbackTable<A, D>,
    h: Handle,
)
    requires
        on_destroy_rel(pre, post, h),
        pre.destroy_cb.slot is Some,
    ensures
        post.history@.len() == pre.history@.len() + 3,
        post.history@[pre.history@.len() as int] == (Event::<A, D>::ActionReleased {
            prev: pre.action.slot,
        }),
        post.history@[pre.history@.len() as int + 1] == (Event::<A, D>::DestroyReleased {
            prev: pre.destroy_cb.slot,
        }),
        post.history@[pre.history@.len() as int + 2] == (Event::<A, D>::DestroyInvoked {
            cb: pre.destroy_cb.slot->Some_0,
            arg: h,
        }),
        forall|j: int|
            (pre.history@.len() <= j < post.history@.len() && ((#[trigger] post.history@[j])
                matches Event::DestroyInvoked { cb, arg })) ==> j == pre.history@.len() + 2,
{
}

/// Teardown on a handle with no destruction closure bound releases both
/// bindings — activation first — and invokes nothing.
pub proof fn lemma_teardown_without_destroy<A, D>(
    pre: CallbackTable<A, D>,
    post: CallbackTable<A, D>,
    h: Handle,
)
    requires
        on_destroy_rel(pre, post, h),
        pre.destroy_cb.slot is None,
    ensures
        post.history@.len() == pre.history@.len() + 2,
        post.history@[pre.history@.len() as int] == (Event::<A, D>::ActionReleased {
            prev: pre.action.slot,
        }),
        post.history@[pre.history@.len() as int + 1] == (Event::<A, D>::DestroyReleased { prev: None }),
        forall|j: int|
            pre.history@.len() <= j < post.history@.len()
                ==> !((#[trigger] post.history@[j]) matches Event::DestroyInvoked { cb, arg })
                && !(post.history@[j] matches Event::ActionInvoked { cb, arg, ret }),
{
}

} // verus!
