//! The native-facing bridge operations.
//!
//! [`call_global`] performs a single "push arguments, call named global,
//! discard results" interaction with the interpreter, with a stack-balance
//! guarantee on every exit path. [`print`] specializes it to the host's
//! message-output global. [`schedule`] hands a one-shot native closure to
//! the host's scheduler through the well-known deferral entry point,
//! releasing the interpreter-side registry entry exactly once, whether or
//! not the deferral call succeeded.

use vstd::prelude::*;

use crate::interp::CallModel;
use crate::interp::Interp;
use crate::interp::InterpModel;
use crate::interp::NativeClosure;
use crate::interp::RegSlot;
use crate::interp::global_lookup;
use crate::interp::ref_value;
use crate::interp::sp_call0;
use crate::interp::sp_get_field;
use crate::interp::sp_get_global;
use crate::interp::sp_pop_n;
use crate::interp::sp_push_int;
use crate::interp::sp_push_ref;
use crate::interp::sp_push_text;
use crate::interp::sp_register;
use crate::interp::sp_release;
use crate::value::Arg;
use crate::value::ArgModel;
use crate::value::ValModel;
use crate::value::contains_nul;
use crate::value::text_has_nul;

verus! {

/// Why a bridge operation failed.
#[derive(Clone, Copy, PartialEq, Eq, Structural, Debug)]
pub enum ErrorKind {
    /// A text argument contains an embedded null terminator, which the
    /// null-terminated push protocol cannot represent. Detected before any
    /// interpreter interaction.
    InvalidArgument,
    /// The named global did not resolve to a callable, so the call
    /// instruction raised an interpreter-level error. The stack is
    /// restored to balance before the error is surfaced.
    InterpreterCallFailed,
}

/// The model of a sequence of native-supplied arguments.
pub open spec fn args_model(s: Seq<Arg>) -> Seq<ArgModel> {
    s.map_values(|a: Arg| a@)
}

/// Whether one argument is a text with an embedded null terminator.
pub open spec fn arg_has_nul(a: ArgModel) -> bool {
    a is Text && contains_nul(a->Text_0)
}

/// Whether any argument is a text with an embedded null terminator.
pub open spec fn any_arg_has_nul(args: Seq<ArgModel>) -> bool {
    exists|i: int| 0 <= i < args.len() && arg_has_nul(#[trigger] args[i])
}

/// The stack value that pushing one argument produces: texts and integers
/// are pushed as themselves, a registry handle as a reference to the value
/// its slot holds.
pub open spec fn arg_value(reg: Seq<RegSlot>, a: ArgModel) -> ValModel {
    match a {
        ArgModel::Text(t) => ValModel::Text(t),
        ArgModel::Int(n) => ValModel::Int(n),
        ArgModel::RegRef(h) => ref_value(reg, h as int),
    }
}

/// The stack values that pushing a sequence of arguments produces, in
/// push order.
pub open spec fn arg_values(reg: Seq<RegSlot>, args: Seq<ArgModel>) -> Seq<ValModel> {
    args.map_values(|a: ArgModel| arg_value(reg, a))
}

/// Transition: push one argument.
pub open spec fn sp_push_arg(m: InterpModel, a: ArgModel) -> InterpModel {
    match a {
        ArgModel::Text(t) => sp_push_text(m, t),
        ArgModel::Int(n) => sp_push_int(m, n),
        ArgModel::RegRef(h) => sp_push_ref(m, h as int),
    }
}

/// Transition: push a sequence of arguments, in order.
pub open spec fn sp_push_args(m: InterpModel, args: Seq<ArgModel>) -> InterpModel
    decreases args.len(),
{
    if args.len() == 0 {
        m
    } else {
        sp_push_arg(sp_push_args(m, args.drop_last()), args.last())
    }
}

/// Transition and outcome of [`call_global`]: reject an embedded null
/// before touching the interpreter; otherwise push the named global, push
/// the arguments in order, and issue the call with arity `args.len()` and
/// zero expected results.
pub open spec fn sp_call_global(m: InterpModel, name: Seq<char>, args: Seq<ArgModel>) -> (
    InterpModel,
    Result<(), ErrorKind>,
) {
    if any_arg_has_nul(args) {
        (m, Err(ErrorKind::InvalidArgument))
    } else {
        let pushed = sp_push_args(sp_get_global(m, name), args);
        let called = sp_call0(pushed, args.len() as int);
        if called.1 {
            (called.0, Ok(()))
        } else {
            (called.0, Err(ErrorKind::InterpreterCallFailed))
        }
    }
}

/// Pushing arguments only appends their stack values; every other part of
/// the context is untouched.
pub proof fn lemma_push_args_effect(m: InterpModel, args: Seq<ArgModel>)
    ensures
        sp_push_args(m, args).stack == m.stack + arg_values(m.registry, args),
        sp_push_args(m, args) == (InterpModel {
            stack: m.stack + arg_values(m.registry, args),
            ..m
        }),
    decreases args.len(),
{
    if args.len() == 0 {
        assert(arg_values(m.registry, args) =~= Seq::<ValModel>::empty());
        assert(m.stack + arg_values(m.registry, args) =~= m.stack);
        assert(sp_push_args(m, args) =~= (InterpModel {
            stack: m.stack + arg_values(m.registry, args),
            ..m
        }));
    } else {
        lemma_push_args_effect(m, args.drop_last());
        let prev = sp_push_args(m, args.drop_last());
        assert(arg_values(m.registry, args) =~= arg_values(m.registry, args.drop_last()).push(
            arg_value(m.registry, args.last()),
        ));
        assert(sp_push_arg(prev, args.last()).stack =~= m.stack + arg_values(m.registry, args));
        assert(sp_push_arg(prev, args.last()) =~= (InterpModel {
            stack: m.stack + arg_values(m.registry, args),
            ..m
        }));
    }
}

/// The full effect of one [`call_global`] transition, spelled out: the
/// caller's stack frame is restored on every exit; nothing but the call
/// log and the host's pending queue can change; each outcome happens if
/// and only if its trigger holds; success appends exactly one call record
/// with the resolved callee, the encoded arguments in order, and zero
/// expected results.
pub proof fn lemma_call_global_effect(m: InterpModel, name: Seq<char>, args: Seq<ArgModel>)
    ensures
        ({
            let (m2, r) = sp_call_global(m, name, args);
            let g = global_lookup(m.globals, name);
            let av = arg_values(m.registry, args);
            &&& m2.stack == m.stack
            &&& m2.globals == m.globals
            &&& m2.fields == m.fields
            &&& m2.registry == m.registry
            &&& m2.invoked == m.invoked
            &&& m2.defer_target == m.defer_target
            &&& (r == Err::<(), ErrorKind>(ErrorKind::InvalidArgument) <==> any_arg_has_nul(args))
            &&& (any_arg_has_nul(args) ==> m2 == m)
            &&& (r is Ok <==> !any_arg_has_nul(args) && g is Callable)
            &&& (r is Ok ==> m2.calls == m.calls.push(
                CallModel { callee: g->Callable_0, args: av, nresults: 0 },
            ))
            &&& (!(r is Ok) ==> m2.calls == m.calls)
            &&& m2.pending == (if r is Ok && g->Callable_0 == m.defer_target && av.len() == 1
                && av[0] is ClosureRef {
                m.pending.push(av[0]->ClosureRef_0)
            } else {
                m.pending
            })
        }),
{
    if any_arg_has_nul(args) {
    } else {
        lemma_push_args_effect(sp_get_global(m, name), args);
        let m1 = sp_get_global(m, name);
        let pushed = sp_push_args(m1, args);
        let g = global_lookup(m.globals, name);
        let av = arg_values(m.registry, args);
        assert(m1.registry == m.registry);
        assert(pushed.stack == m.stack.push(g) + av);
        let n = args.len() as int;
        let cpos = pushed.stack.len() - n - 1;
        assert(av.len() == n);
        assert(cpos == m.stack.len());
        assert(pushed.stack[cpos] == g);
        assert(pushed.stack.subrange(cpos + 1, pushed.stack.len() as int) =~= av);
        assert(pushed.stack.take(cpos) =~= m.stack);
    }
}

/// Calls the global function `name` with the given arguments, discarding
/// all results.
///
/// If any text argument contains an embedded null terminator the call
/// fails with [`ErrorKind::InvalidArgument`] before anything is pushed and
/// the context is untouched. Otherwise the named global is pushed, each
/// argument is pushed in order, and the call instruction is issued with
/// arity `args.len()` and zero expected results; if the name did not
/// resolve to a callable the interpreter-level error is surfaced as
/// [`ErrorKind::InterpreterCallFailed`]. On every exit the observable
/// stack depth is exactly what it was before the call.
pub fn call_global(st: &mut Interp, name: &String, args: &Vec<Arg>) -> (r: Result<(), ErrorKind>)
    ensures
        final(st)@ == sp_call_global(old(st)@, name@, args_model(args@)).0,
        r == sp_call_global(old(st)@, name@, args_model(args@)).1,
        final(st)@.stack == old(st)@.stack,
        r == Err::<(), ErrorKind>(ErrorKind::InvalidArgument) <==> any_arg_has_nul(
            args_model(args@),
        ),
        any_arg_has_nul(args_model(args@)) ==> final(st)@ == old(st)@,
        r is Ok <==> !any_arg_has_nul(args_model(args@)) && global_lookup(
            old(st)@.globals,
            name@,
        ) is Callable,
        r is Ok ==> final(st)@.calls == old(st)@.calls.push(
            CallModel {
                callee: global_lookup(old(st)@.globals, name@)->Callable_0,
                args: arg_values(old(st)@.registry, args_model(args@)),
                nresults: 0,
            },
        ),
        !(r is Ok) ==> final(st)@.calls == old(st)@.calls,
        final(st)@.registry == old(st)@.registry,
        final(st)@.invoked == old(st)@.invoked,
{
    let ghost am = args_model(args@);
    let n = args.len();
    let mut k: usize = 0;
    while k < n
        invariant
            n == args.len(),
            am == args_model(args@),
            0 <= k <= n,
            forall|j: int| 0 <= j < k ==> !arg_has_nul(#[trigger] am[j]),
        decreases n - k,
    {
        if let Arg::Text(s) = &args[k] {
            if text_has_nul(s) {
                proof {
                    assert(arg_has_nul(am[k as int]));
                    lemma_call_global_effect(old(st)@, name@, am);
                }
                return Err(ErrorKind::InvalidArgument);
            }
        }
        k = k + 1;
    }
    proof {
        assert(!any_arg_has_nul(am));
    }
    st.get_global(name);
    let ghost m1 = sp_get_global(old(st)@, name@);
    let mut k: usize = 0;
    while k < n
        invariant
            n == args.len(),
            am == args_model(args@),
            m1 == sp_get_global(old(st)@, name@),
            0 <= k <= n,
            forall|j: int| 0 <= j < n ==> !arg_has_nul(#[trigger] am[j]),
            st@ == sp_push_args(m1, am.take(k as int)),
        decreases n - k,
    {
        match &args[k] {
            Arg::Text(s) => {
                proof {
                    assert(arg_has_nul(am[k as int]) == false);
                    assert(am[k as int] == ArgModel::Text(s@));
                }
                let copy = s.clone();
                st.push_text(copy);
            },
            Arg::Int(v) => {
                st.push_int(*v);
            },
            Arg::RegRef(h) => {
                st.push_registry_ref(*h);
            },
        }
        proof {
            assert(am.take(k + 1).drop_last() =~= am.take(k as int));
            assert(am.take(k + 1).last() == am[k as int]);
            assert(st@ == sp_push_arg(sp_push_args(m1, am.take(k as int)), am[k as int]));
        }
        k = k + 1;
    }
    proof {
        assert(am.take(n as int) =~= am);
        lemma_push_args_effect(m1, am);
        lemma_call_global_effect(old(st)@, name@, am);
    }
    let ok = st.call0(n);
    if ok {
        Ok(())
    } else {
        Err(ErrorKind::InterpreterCallFailed)
    }
}

/// Prints a message to the host's message area by calling the global
/// message-output function with the text as its single argument. Fails
/// with [`ErrorKind::InvalidArgument`], before any interpreter
/// interaction, exactly when the text contains an embedded null
/// terminator; succeeds exactly when it does not and the message-output
/// global resolves to a callable. The observable stack depth is unchanged
/// on every exit.
pub fn print(st: &mut Interp, text: String) -> (r: Result<(), ErrorKind>)
    ensures
        final(st)@ == sp_call_global(old(st)@, "print"@, seq![ArgModel::Text(text@)]).0,
        r == sp_call_global(old(st)@, "print"@, seq![ArgModel::Text(text@)]).1,
        final(st)@.stack == old(st)@.stack,
        r == Err::<(), ErrorKind>(ErrorKind::InvalidArgument) <==> contains_nul(text@),
        contains_nul(text@) ==> final(st)@ == old(st)@,
        r is Ok <==> !contains_nul(text@) && global_lookup(old(st)@.globals, "print"@) is Callable,
        r is Ok ==> final(st)@.calls == old(st)@.calls.push(
            CallModel {
                callee: global_lookup(old(st)@.globals, "print"@)->Callable_0,
                args: seq![ValModel::Text(text@)],
                nresults: 0,
            },
        ),
        !(r is Ok) ==> final(st)@.calls == old(st)@.calls,
        final(st)@.registry == old(st)@.registry,
        final(st)@.invoked == old(st)@.invoked,
{
    let name: String = "print".to_owned();
    let mut args: Vec<Arg> = Vec::new();
    args.push(Arg::Text(text));
    proof {
        assert(args_model(args@) =~= seq![ArgModel::Text(text@)]);
        assert(any_arg_has_nul(seq![ArgModel::Text(text@)]) <==> contains_nul(text@)) by {
            if contains_nul(text@) {
                assert(arg_has_nul(seq![ArgModel::Text(text@)][0]));
            }
        }
    }
    let r = call_global(st, &name, &args);
    proof {
        assert(arg_values(old(st)@.registry, args_model(args@)) =~= seq![ValModel::Text(text@)]);
    }
    r
}

/// Transition of [`schedule`]: look the host namespace table up, fetch its
/// scheduling entry point, register the closure, push a reference to it,
/// issue the call with arity one and zero expected results, pop the
/// receiver table, and release the registry slot.
pub open spec fn sp_schedule(m: InterpModel, c: u64) -> InterpModel {
    let m1 = sp_get_global(m, "vim"@);
    let m2 = sp_get_field(m1, "schedule"@);
    let h = m2.registry.len() as int;
    let m3 = sp_register(m2, c);
    let m4 = sp_push_ref(m3, h);
    let m5 = sp_call0(m4, 1).0;
    let m6 = sp_pop_n(m5, 1);
    sp_release(m6, h)
}

/// Schedules a one-shot native closure for deferred invocation by the
/// host's own scheduler.
///
/// The closure is registered in the interpreter's persistent reference
/// registry, a reference to it is passed as the sole argument to the
/// host's well-known deferral entry point, and the registry slot is then
/// released unconditionally — whether or not the deferral call succeeded —
/// so the table entry's lifetime is bounded by this call. Scheduling is
/// fire and forget: no failure is reported. The closure itself is never
/// invoked here; when the deferral call succeeds, the host has captured
/// the closure into its pending queue and will invoke it strictly after
/// this function returns.
pub fn schedule(st: &mut Interp, fun: NativeClosure)
    ensures
        final(st)@ == sp_schedule(old(st)@, fun.id),
        final(st)@.stack == old(st)@.stack,
        final(st)@.invoked == old(st)@.invoked,
        final(st)@.registry == old(st)@.registry.push(RegSlot::Released),
        final(st)@.globals == old(st)@.globals,
        final(st)@.fields == old(st)@.fields,
{
    let ghost m0 = old(st)@;
    let vim_name: String = "vim".to_owned();
    let sched_name: String = "schedule".to_owned();
    st.get_global(&vim_name);
    st.get_field_of_top(&sched_name);
    let luaref = st.register_closure(fun);
    st.push_registry_ref(luaref);
    let _ok = st.call0(1);
    st.pop_n(1);
    st.release_ref(luaref);
    proof {
        assert(final(st)@ == sp_schedule(m0, fun.id));
        lemma_schedule_effect(m0, fun.id);
    }
}

/// The full effect of one [`schedule`] transition, spelled out: the stack
/// and the record of host invocations are untouched; the registry grows by
/// exactly one slot, already released by the time the transition ends; and
/// everything else the deferral call cannot reach is unchanged.
pub proof fn lemma_schedule_effect(m: InterpModel, c: u64)
    ensures
        sp_schedule(m, c).stack == m.stack,
        sp_schedule(m, c).invoked == m.invoked,
        sp_schedule(m, c).registry == m.registry.push(RegSlot::Released),
        sp_schedule(m, c).globals == m.globals,
        sp_schedule(m, c).fields == m.fields,
        sp_schedule(m, c).defer_target == m.defer_target,
{
    let m1 = sp_get_global(m, "vim"@);
    let m2 = sp_get_field(m1, "schedule"@);
    let h = m2.registry.len() as int;
    let m3 = sp_register(m2, c);
    let m4 = sp_push_ref(m3, h);
    let m5 = sp_call0(m4, 1).0;
    let m6 = sp_pop_n(m5, 1);
    assert(m4.stack.len() == m.stack.len() + 3);
    assert(m5.stack =~= m4.stack.take(m.stack.len() as int + 1));
    assert(m6.stack =~= m.stack);
    assert(sp_schedule(m, c).registry =~= m.registry.push(RegSlot::Released));
}
} // verus!
