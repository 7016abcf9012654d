//! Tests of the deferred-closure bridge: `schedule` and the host-side
//! drain of the pending queue.

use lua_bridge::bridge::call_global;
use lua_bridge::bridge::schedule;
use lua_bridge::interp::Interp;
use lua_bridge::interp::NativeClosure;
use lua_bridge::interp::RegSlot;
use lua_bridge::value::Arg;
use lua_bridge::value::Val;

const DEFER: u64 = 7;
const VIM: u64 = 2;

fn with_host_scheduler() -> Interp {
    let mut st = Interp::new(DEFER);
    st.set_global("vim".to_owned(), Val::Table(VIM));
    st.set_field(VIM, "schedule".to_owned(), Val::Callable(DEFER));
    st
}

#[test]
fn schedule_hands_closure_to_host_and_releases_handle() {
    let mut st = with_host_scheduler();
    schedule(&mut st, NativeClosure { id: 42 });
    // The registration's slot is released before `schedule` returns.
    assert_eq!(st.registry, vec![RegSlot::Released]);
    // The stack is balanced: the receiver table was popped again.
    assert_eq!(st.stack.len(), 0);
    // The host captured the closure; nothing has invoked it yet.
    assert_eq!(st.pending, vec![42]);
    assert_eq!(st.invoked.len(), 0);
    // Exactly one deferral call was issued, with the reference as its
    // sole argument and zero expected results.
    assert_eq!(st.calls.len(), 1);
    let rec = &st.calls[0];
    assert_eq!(rec.callee, DEFER);
    assert_eq!(rec.args.len(), 1);
    assert!(matches!(rec.args[0], Val::ClosureRef(42)));
    assert_eq!(rec.nresults, 0);
}

#[test]
fn scheduled_closure_runs_only_when_host_drains() {
    let mut st = with_host_scheduler();
    schedule(&mut st, NativeClosure { id: 42 });
    // Before the drain: scheduled but never invoked, and no registry
    // entry for the closure is live any more.
    assert_eq!(st.invoked.len(), 0);
    assert!(st.registry.iter().all(|s| *s != RegSlot::Live(42)));
    // The host drains its queue: the closure runs exactly once.
    assert_eq!(st.host_invoke_next(), Some(42));
    assert_eq!(st.invoked, vec![42]);
    assert_eq!(st.pending.len(), 0);
    // A second drain finds nothing: the closure was consumed.
    assert_eq!(st.host_invoke_next(), None);
    assert_eq!(st.invoked, vec![42]);
}

#[test]
fn schedule_releases_handle_when_deferral_global_missing() {
    let mut st = Interp::new(DEFER);
    schedule(&mut st, NativeClosure { id: 8 });
    // The deferral call failed, and the handle was still released.
    assert_eq!(st.registry, vec![RegSlot::Released]);
    assert_eq!(st.stack.len(), 0);
    assert_eq!(st.pending.len(), 0);
    assert_eq!(st.invoked.len(), 0);
    assert_eq!(st.calls.len(), 0);
}

#[test]
fn schedule_releases_handle_when_namespace_is_not_a_table() {
    let mut st = Interp::new(DEFER);
    st.set_global("vim".to_owned(), Val::Int(1));
    schedule(&mut st, NativeClosure { id: 8 });
    assert_eq!(st.registry, vec![RegSlot::Released]);
    assert_eq!(st.stack.len(), 0);
    assert_eq!(st.pending.len(), 0);
    assert_eq!(st.calls.len(), 0);
}

#[test]
fn schedule_releases_handle_when_entry_point_not_callable() {
    let mut st = Interp::new(DEFER);
    st.set_global("vim".to_owned(), Val::Table(VIM));
    st.set_field(VIM, "schedule".to_owned(), Val::Table(3));
    schedule(&mut st, NativeClosure { id: 8 });
    assert_eq!(st.registry, vec![RegSlot::Released]);
    assert_eq!(st.stack.len(), 0);
    assert_eq!(st.pending.len(), 0);
    assert_eq!(st.calls.len(), 0);
}

#[test]
fn schedule_twice_uses_fresh_handles() {
    let mut st = with_host_scheduler();
    schedule(&mut st, NativeClosure { id: 42 });
    schedule(&mut st, NativeClosure { id: 43 });
    // A handle is never reused after release: the second registration
    // got a fresh slot.
    assert_eq!(st.registry, vec![RegSlot::Released, RegSlot::Released]);
    assert_eq!(st.pending, vec![42, 43]);
    assert_eq!(st.invoked.len(), 0);
    // The host runs them in scheduling order, each exactly once.
    assert_eq!(st.host_invoke_next(), Some(42));
    assert_eq!(st.host_invoke_next(), Some(43));
    assert_eq!(st.host_invoke_next(), None);
    assert_eq!(st.invoked, vec![42, 43]);
}

#[test]
fn released_slot_is_no_longer_reachable() {
    let mut st = with_host_scheduler();
    schedule(&mut st, NativeClosure { id: 42 });
    st.set_global("f".to_owned(), Val::Callable(9));
    // Passing the released handle pushes the absent value, not the
    // closure: the registry entry did not outlive the schedule call.
    let r = call_global(&mut st, &"f".to_owned(), &vec![Arg::RegRef(0)]);
    assert!(r.is_ok());
    let rec = &st.calls[1];
    assert!(matches!(rec.args[0], Val::Nil));
}

#[test]
fn host_drain_on_empty_queue_is_a_no_op() {
    let mut st = Interp::new(DEFER);
    assert_eq!(st.host_invoke_next(), None);
    assert_eq!(st.invoked.len(), 0);
    assert_eq!(st.pending.len(), 0);
}

#[test]
fn deferral_errors_are_not_reported() {
    // Fire and forget: scheduling has no failure channel. The release
    // happens identically whether or not the host convention is in place;
    // only the host-visible effect differs.
    let mut ok_st = with_host_scheduler();
    let mut bad_st = Interp::new(DEFER);
    schedule(&mut ok_st, NativeClosure { id: 1 });
    schedule(&mut bad_st, NativeClosure { id: 1 });
    assert_eq!(ok_st.registry, bad_st.registry);
    assert_eq!(ok_st.pending, vec![1]);
    assert_eq!(bad_st.pending, vec![]);
}
