use iup_callback::binding::Binding;
use iup_callback::callback::drop_action;
use iup_callback::callback::drop_destroy_cb;
use iup_callback::callback::listener_action;
use iup_callback::callback::listener_destroy_cb;
use iup_callback::callback::on_destroy;
use iup_callback::callback::set_action;
use iup_callback::callback::set_destroy_cb;
use iup_callback::callback::CallbackTable;
use iup_callback::handle::CallbackReturn;
use iup_callback::handle::Handle;
use std::cell::Cell;
use std::rc::Rc;

type ActionCb = Box<dyn Fn(Handle) -> CallbackReturn>;
type DestroyCb = Box<dyn Fn(Handle)>;
type Table = CallbackTable<ActionCb, DestroyCb>;

/// An action closure that counts its invocations, records the raw handle it
/// last saw, and answers with `ret`.
fn counting_action(count: &Rc<Cell<u32>>, seen: &Rc<Cell<usize>>, ret: CallbackReturn) -> ActionCb {
    let count = Rc::clone(count);
    let seen = Rc::clone(seen);
    Box::new(move |h: Handle| {
        count.set(count.get() + 1);
        seen.set(h.raw);
        ret
    })
}

/// A destroy closure that counts its invocations and records the raw handle.
fn counting_destroy(count: &Rc<Cell<u32>>, seen: &Rc<Cell<usize>>) -> DestroyCb {
    let count = Rc::clone(count);
    let seen = Rc::clone(seen);
    Box::new(move |h: Handle| {
        count.set(count.get() + 1);
        seen.set(h.raw);
    })
}

#[test]
fn handle_wrap_keeps_raw_address() {
    let h = Handle::wrap(0x1234);
    assert_eq!(h.raw(), 0x1234);
    assert_eq!(h.raw, 0x1234);
}

#[test]
fn fresh_table_has_nothing_installed() {
    let t = Table::new();
    assert!(t.action.slot.is_none());
    assert!(!t.action.trampoline);
    assert!(t.destroy_cb.slot.is_none());
    assert!(!t.destroy_cb.trampoline);
}

#[test]
fn register_on_empty_returns_none_and_installs() {
    let count = Rc::new(Cell::new(0));
    let seen = Rc::new(Cell::new(0));
    let mut t = Table::new();
    let prev = set_action(&mut t, Some(counting_action(&count, &seen, CallbackReturn::Default)));
    assert!(prev.is_none());
    assert!(t.action.slot.is_some());
    assert!(t.action.trampoline);
}

#[test]
fn register_returns_previous_closure() {
    // Only the most recent closure stays active; the superseded one is
    // handed back by the next register and is never run by a dispatch again.
    let c1_count = Rc::new(Cell::new(0));
    let c2_count = Rc::new(Cell::new(0));
    let seen = Rc::new(Cell::new(0));
    let mut t = Table::new();
    set_action(&mut t, Some(counting_action(&c1_count, &seen, CallbackReturn::Default)));
    let prev = set_action(&mut t, Some(counting_action(&c2_count, &seen, CallbackReturn::Default)));
    // The closure handed back is c1: invoking it bumps c1's counter only.
    let prev = prev.expect("first closure must be handed back");
    prev(Handle::wrap(1));
    assert_eq!(c1_count.get(), 1);
    assert_eq!(c2_count.get(), 0);
}

#[test]
fn register_none_uninstalls_and_clears_trampoline() {
    let count = Rc::new(Cell::new(0));
    let seen = Rc::new(Cell::new(0));
    let mut t = Table::new();
    set_action(&mut t, Some(counting_action(&count, &seen, CallbackReturn::Default)));
    let prev = set_action(&mut t, None);
    assert!(prev.is_some());
    assert!(t.action.slot.is_none());
    assert!(!t.action.trampoline);
}

#[test]
fn release_is_idempotent() {
    // The first release returns the closure, the second returns none.
    let count = Rc::new(Cell::new(0));
    let seen = Rc::new(Cell::new(0));
    let mut t = Table::new();
    set_action(&mut t, Some(counting_action(&count, &seen, CallbackReturn::Default)));
    let first = drop_action(&mut t);
    assert!(first.is_some());
    let second = drop_action(&mut t);
    assert!(second.is_none());
}

#[test]
fn release_on_never_bound_is_a_noop() {
    let mut t = Table::new();
    assert!(drop_action(&mut t).is_none());
    assert!(drop_destroy_cb(&mut t).is_none());
    assert!(!t.action.trampoline);
    assert!(!t.destroy_cb.trampoline);
}

#[test]
fn destroy_release_is_idempotent() {
    let count = Rc::new(Cell::new(0));
    let seen = Rc::new(Cell::new(0));
    let mut t = Table::new();
    set_destroy_cb(&mut t, Some(counting_destroy(&count, &seen)));
    assert!(drop_destroy_cb(&mut t).is_some());
    assert!(drop_destroy_cb(&mut t).is_none());
}

#[test]
fn action_dispatch_invokes_bound_closure_once() {
    // Register c1 for the activation event; a dispatch invokes c1 exactly
    // once with the wrapped handle and propagates its result.
    let c1_count = Rc::new(Cell::new(0));
    let seen = Rc::new(Cell::new(0));
    let mut t = Table::new();
    set_action(&mut t, Some(counting_action(&c1_count, &seen, CallbackReturn::Default)));
    let r = listener_action(&mut t, Handle::wrap(0xbeef));
    assert_eq!(r, CallbackReturn::Default);
    assert_eq!(c1_count.get(), 1);
    assert_eq!(seen.get(), 0xbeef);
}

#[test]
fn action_dispatch_propagates_each_result() {
    let count = Rc::new(Cell::new(0));
    let seen = Rc::new(Cell::new(0));
    for ret in [
        CallbackReturn::Default,
        CallbackReturn::Close,
        CallbackReturn::Ignore,
        CallbackReturn::Continue,
    ] {
        let mut t = Table::new();
        set_action(&mut t, Some(counting_action(&count, &seen, ret)));
        assert_eq!(listener_action(&mut t, Handle::wrap(5)), ret);
    }
    assert_eq!(count.get(), 4);
}

#[test]
fn superseded_closure_is_not_dispatched_again() {
    // Register c1, dispatch, replace with c2, dispatch: c2 runs and c1's
    // count stays where it was.
    let c1_count = Rc::new(Cell::new(0));
    let c2_count = Rc::new(Cell::new(0));
    let seen = Rc::new(Cell::new(0));
    let h = Handle::wrap(42);
    let mut t = Table::new();
    set_action(&mut t, Some(counting_action(&c1_count, &seen, CallbackReturn::Default)));
    let r = listener_action(&mut t, h);
    assert_eq!(r, CallbackReturn::Default);
    assert_eq!(c1_count.get(), 1);
    assert_eq!(seen.get(), 42);
    let prev = set_action(&mut t, Some(counting_action(&c2_count, &seen, CallbackReturn::Ignore)));
    assert!(prev.is_some());
    let r = listener_action(&mut t, h);
    assert_eq!(r, CallbackReturn::Ignore);
    assert_eq!(c2_count.get(), 1);
    assert_eq!(c1_count.get(), 1);
}

#[test]
fn destroy_dispatch_reports_default() {
    // The destruction callback's result mapping ignores the closure and
    // always reports default processing to the native caller.
    let count = Rc::new(Cell::new(0));
    let seen = Rc::new(Cell::new(0));
    let mut t = Table::new();
    set_destroy_cb(&mut t, Some(counting_destroy(&count, &seen)));
    let r = listener_destroy_cb(&mut t, Handle::wrap(9));
    assert_eq!(r, CallbackReturn::Default);
    assert_eq!(count.get(), 1);
    assert_eq!(seen.get(), 9);
}

#[test]
fn teardown_with_both_callbacks_bound() {
    // With an activation and a destruction closure bound, teardown clears
    // both bindings and invokes the destruction closure exactly once with
    // the wrapped handle; the activation closure is released, not invoked.
    let a_count = Rc::new(Cell::new(0));
    let d_count = Rc::new(Cell::new(0));
    let seen = Rc::new(Cell::new(0));
    let mut t = Table::new();
    set_action(&mut t, Some(counting_action(&a_count, &seen, CallbackReturn::Default)));
    set_destroy_cb(&mut t, Some(counting_destroy(&d_count, &seen)));
    on_destroy(&mut t, Handle::wrap(77));
    assert_eq!(d_count.get(), 1);
    assert_eq!(seen.get(), 77);
    assert_eq!(a_count.get(), 0);
    assert!(t.action.slot.is_none());
    assert!(!t.action.trampoline);
    assert!(t.destroy_cb.slot.is_none());
    assert!(!t.destroy_cb.trampoline);
}

#[test]
fn teardown_with_only_destroy_bound() {
    // Register d1 for destruction only: teardown's action release is a
    // no-op, d1 runs exactly once with the handle, and a later release of
    // the destruction binding returns none.
    let d_count = Rc::new(Cell::new(0));
    let seen = Rc::new(Cell::new(0));
    let h = Handle::wrap(314);
    let mut t = Table::new();
    set_destroy_cb(&mut t, Some(counting_destroy(&d_count, &seen)));
    on_destroy(&mut t, h);
    assert_eq!(d_count.get(), 1);
    assert_eq!(seen.get(), 314);
    assert!(drop_destroy_cb(&mut t).is_none());
}

#[test]
fn teardown_with_nothing_bound_is_safe() {
    let mut t = Table::new();
    on_destroy(&mut t, Handle::wrap(1));
    assert!(t.action.slot.is_none());
    assert!(t.destroy_cb.slot.is_none());
}

#[test]
fn binding_level_register_and_release() {
    let mut b: Binding<ActionCb> = Binding::new();
    assert!(b.slot.is_none());
    assert!(!b.trampoline);
    let count = Rc::new(Cell::new(0));
    let seen = Rc::new(Cell::new(0));
    let prev = b.register(Some(counting_action(&count, &seen, CallbackReturn::Close)));
    assert!(prev.is_none());
    assert!(b.trampoline);
    let f = b.bound();
    assert_eq!(f(Handle::wrap(8)), CallbackReturn::Close);
    assert_eq!(count.get(), 1);
    let prev = b.release();
    assert!(prev.is_some());
    assert!(!b.trampoline);
    assert!(b.release().is_none());
}
