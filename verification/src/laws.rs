//! The bridge's guarantees, stated and proved as laws over the transition
//! functions that [`crate::bridge`]'s executable operations are specified
//! by.

use vstd::prelude::*;

use crate::bridge::ErrorKind;
use crate::bridge::any_arg_has_nul;
use crate::bridge::arg_has_nul;
use crate::bridge::arg_values;
use crate::bridge::lemma_call_global_effect;
use crate::bridge::lemma_schedule_effect;
use crate::bridge::sp_call_global;
use crate::bridge::sp_schedule;
use crate::interp::CallModel;
use crate::interp::InterpModel;
use crate::interp::RegSlot;
use crate::interp::field_lookup;
use crate::interp::global_lookup;
use crate::interp::sp_call0;
use crate::interp::sp_get_field;
use crate::interp::sp_get_global;
use crate::interp::sp_push_ref;
use crate::interp::sp_register;
use crate::value::ArgModel;
use crate::value::ValModel;
use crate::value::contains_nul;

verus! {

/// Whether the context binds the host's message-output global to a
/// callable — the precondition under which a print is owed success.
pub open spec fn print_global_bound(m: InterpModel) -> bool {
    global_lookup(m.globals, "print"@) is Callable
}

/// Whether the context follows the host's scheduling convention: the host
/// namespace table is a global, and its scheduling field is the callable
/// the host listens on.
pub open spec fn host_convention(m: InterpModel) -> bool {
    &&& global_lookup(m.globals, "vim"@) is Table
    &&& field_lookup(m.fields, global_lookup(m.globals, "vim"@)->Table_0, "schedule"@)
        == ValModel::Callable(m.defer_target)
}

/// For every text without an embedded null terminator, printing it
/// through the message-output global succeeds, and the observable stack
/// depth after the call equals the depth before it.
pub proof fn law_print_succeeds_without_nul(m: InterpModel, text: Seq<char>)
    requires
        !contains_nul(text),
        print_global_bound(m),
    ensures
        sp_call_global(m, "print"@, seq![ArgModel::Text(text)]).1 is Ok,
        sp_call_global(m, "print"@, seq![ArgModel::Text(text)]).0.stack == m.stack,
{
    let args = seq![ArgModel::Text(text)];
    assert(!any_arg_has_nul(args)) by {
        assert(forall|i: int| 0 <= i < args.len() ==> !arg_has_nul(#[trigger] args[i]));
    }
    lemma_call_global_effect(m, "print"@, args);
}

/// For every text with an embedded null terminator, printing it fails
/// with [`ErrorKind::InvalidArgument`] and performs zero interpreter
/// interactions: the whole context — stack, globals, registry, call log,
/// queues — is exactly what it was.
pub proof fn law_print_rejects_embedded_nul(m: InterpModel, text: Seq<char>)
    requires
        contains_nul(text),
    ensures
        sp_call_global(m, "print"@, seq![ArgModel::Text(text)]).1 == Err::<(), ErrorKind>(
            ErrorKind::InvalidArgument,
        ),
        sp_call_global(m, "print"@, seq![ArgModel::Text(text)]).0 == m,
{
    let args = seq![ArgModel::Text(text)];
    assert(arg_has_nul(args[0]));
    lemma_call_global_effect(m, "print"@, args);
}

/// Whatever the arguments and whatever the outcome, a global call leaves
/// the caller's observable stack frame unchanged: no value is leaked onto
/// the stack on any exit path, success or failure.
pub proof fn law_call_global_stack_balance(m: InterpModel, name: Seq<char>, args: Seq<ArgModel>)
    ensures
        sp_call_global(m, name, args).0.stack == m.stack,
{
    lemma_call_global_effect(m, name, args);
}

/// Printing the same valid text twice produces two independent emissions
/// and two independent net-zero stack deltas: both calls succeed, the
/// stack is balanced after each, and the call log grows by exactly two
/// identical records — no shared mutable state persists between the
/// calls.
pub proof fn law_print_twice_independent(m: InterpModel, text: Seq<char>)
    requires
        !contains_nul(text),
        print_global_bound(m),
    ensures
        ({
            let args = seq![ArgModel::Text(text)];
            let (ma, ra) = sp_call_global(m, "print"@, args);
            let (mb, rb) = sp_call_global(ma, "print"@, args);
            let rec = CallModel {
                callee: global_lookup(m.globals, "print"@)->Callable_0,
                args: arg_values(m.registry, args),
                nresults: 0,
            };
            &&& ra is Ok
            &&& rb is Ok
            &&& ma.stack == m.stack
            &&& mb.stack == m.stack
            &&& mb.calls == m.calls.push(rec).push(rec)
        }),
{
    let args = seq![ArgModel::Text(text)];
    assert(!any_arg_has_nul(args)) by {
        assert(forall|i: int| 0 <= i < args.len() ==> !arg_has_nul(#[trigger] args[i]));
    }
    lemma_call_global_effect(m, "print"@, args);
    let ma = sp_call_global(m, "print"@, args).0;
    lemma_call_global_effect(ma, "print"@, args);
    assert(arg_values(ma.registry, args) == arg_values(m.registry, args));
}

/// The registry handle obtained while scheduling a closure is released
/// exactly once, after the deferral call has returned, regardless of
/// whether that call succeeded or raised an interpreter-level error: the
/// one slot the registration created is `Released` by the time `schedule`
/// returns, and no other slot was touched.
pub proof fn law_schedule_releases_exactly_once(m: InterpModel, c: u64)
    ensures
        sp_schedule(m, c).registry.len() == m.registry.len() + 1,
        sp_schedule(m, c).registry[m.registry.len() as int] == RegSlot::Released,
        forall|i: int|
            0 <= i < m.registry.len() ==> #[trigger] sp_schedule(m, c).registry[i]
                == m.registry[i],
{
    lemma_schedule_effect(m, c);
}

/// A scheduled closure is never invoked synchronously inside `schedule`:
/// the host's record of invocations is exactly what it was when
/// `schedule` returns.
pub proof fn law_schedule_never_invokes(m: InterpModel, c: u64)
    ensures
        sp_schedule(m, c).invoked == m.invoked,
{
    lemma_schedule_effect(m, c);
}

/// Under the host's scheduling convention, `schedule` hands the closure
/// off: when `schedule` returns, the closure sits in the host's pending
/// queue — not yet invoked, to be run by the host strictly after the
/// handoff — even though its registry slot is already released.
pub proof fn law_schedule_hands_off(m: InterpModel, c: u64)
    requires
        host_convention(m),
    ensures
        sp_schedule(m, c).pending == m.pending.push(c),
        sp_schedule(m, c).invoked == m.invoked,
{
    lemma_schedule_effect(m, c);
    let m1 = sp_get_global(m, "vim"@);
    let m2 = sp_get_field(m1, "schedule"@);
    let h = m2.registry.len() as int;
    let m3 = sp_register(m2, c);
    let m4 = sp_push_ref(m3, h);
    assert(m4.stack.last() == ValModel::ClosureRef(c));
    assert(m4.stack[m4.stack.len() - 2] == ValModel::Callable(m.defer_target));
    let called = sp_call0(m4, 1);
    assert(called.0.pending =~= m.pending.push(c)) by {
        assert(m4.stack.subrange(m4.stack.len() - 1, m4.stack.len() as int) =~= seq![
            ValModel::ClosureRef(c),
        ]);
    }
}

/// Once a closure's registry slot has been released, no live handle for
/// it remains: if no slot held the closure before `schedule`, none holds
/// it afterwards — the table entry's lifetime is bounded by the single
/// `schedule` call, not by the closure's eventual execution.
pub proof fn law_schedule_leaves_no_live_handle(m: InterpModel, c: u64)
    requires
        forall|i: int| 0 <= i < m.registry.len() ==> #[trigger] m.registry[i] != RegSlot::Live(c),
    ensures
        forall|i: int|
            0 <= i < sp_schedule(m, c).registry.len() ==> #[trigger] sp_schedule(m, c).registry[i]
                != RegSlot::Live(c),
{
    lemma_schedule_effect(m, c);
    assert forall|i: int| 0 <= i < sp_schedule(m, c).registry.len() implies #[trigger] sp_schedule(
        m,
        c,
    ).registry[i] != RegSlot::Live(c) by {
        if i < m.registry.len() {
            assert(sp_schedule(m, c).registry[i] == m.registry[i]);
        } else {
            assert(sp_schedule(m, c).registry[i] == RegSlot::Released);
        }
    }
}

} // verus!
