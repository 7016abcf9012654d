//! The modeled interpreter context and the stack-protocol primitives the
//! bridge drives it with.
//!
//! The real interpreter lives inside the host application and is reached
//! through a process-wide state handle. Here that handle is an explicit,
//! exclusively-borrowed [`Interp`] value that models everything the bridge
//! can observe: the value stack, the global namespace, the fields of host
//! tables, the persistent reference registry, the log of issued calls, and
//! the host scheduler's queue of pending deferred invocations. Every
//! primitive is specified by a functional transition on the ghost model
//! [`InterpModel`].

use vstd::prelude::*;

use crate::value::Val;
use crate::value::ValModel;
use crate::value::contains_nul;

verus! {

/// One slot of the interpreter's persistent reference registry.
///
/// A slot is created `Live`, holding the identity of the registered native
/// closure, and is never reused once `Released`.
#[derive(Clone, Copy, PartialEq, Eq, Structural, Debug)]
pub enum RegSlot {
    /// The slot holds a registered closure, by identity.
    Live(u64),
    /// The slot's entry has been released.
    Released,
}

/// A one-shot native callable, carried by identity.
///
/// The captured native state is opaque to the interpreter, so the model
/// keeps only the identity under which the host will later invoke it. The
/// type deliberately implements neither `Clone` nor `Copy`: registering it
/// consumes it, which makes "run at most once" a fact of ownership.
pub struct NativeClosure {
    /// The identity under which the host observes this closure.
    pub id: u64,
}

/// A record of one call instruction issued to the interpreter: the callee
/// (by identity), the arguments it consumed, and how many results were
/// expected. Each record corresponds to one invocation of the callee
/// inside the host.
pub struct CallRecord {
    /// Identity of the callable that was invoked.
    pub callee: u64,
    /// The argument values, in push order.
    pub args: Vec<Val>,
    /// Number of results the caller asked for (the bridge always asks
    /// for zero and discards results).
    pub nresults: usize,
}

/// The mathematical model of a [`CallRecord`].
#[verifier::ext_equal]
pub struct CallModel {
    pub callee: u64,
    pub args: Seq<ValModel>,
    pub nresults: usize,
}

impl View for CallRecord {
    type V = CallModel;

    open spec fn view(&self) -> CallModel {
        CallModel { callee: self.callee, args: vals_model(self.args@), nresults: self.nresults }
    }
}

/// The model of a sequence of stack values.
pub open spec fn vals_model(s: Seq<Val>) -> Seq<ValModel> {
    s.map_values(|v: Val| v@)
}

/// The model of the global namespace: name/value bindings, first match
/// wins, so a binding installed later shadows an earlier one.
pub open spec fn globals_model(g: Seq<(String, Val)>) -> Seq<(Seq<char>, ValModel)> {
    g.map_values(|p: (String, Val)| (p.0@, p.1@))
}

/// The model of the table-field bindings: (table identity, field name,
/// value), first match wins.
pub open spec fn fields_model(f: Seq<(u64, String, Val)>) -> Seq<(u64, Seq<char>, ValModel)> {
    f.map_values(|e: (u64, String, Val)| (e.0, e.1@, e.2@))
}

/// The model of the call log.
pub open spec fn calls_model(c: Seq<CallRecord>) -> Seq<CallModel> {
    c.map_values(|r: CallRecord| r@)
}

/// The mathematical model of the whole interpreter context.
#[verifier::ext_equal]
pub struct InterpModel {
    /// The value stack, bottom first.
    pub stack: Seq<ValModel>,
    /// The global namespace bindings, first match wins.
    pub globals: Seq<(Seq<char>, ValModel)>,
    /// Field bindings of host tables, first match wins.
    pub fields: Seq<(u64, Seq<char>, ValModel)>,
    /// The persistent reference registry; a handle is an index.
    pub registry: Seq<RegSlot>,
    /// Every call instruction issued so far, oldest first.
    pub calls: Seq<CallModel>,
    /// Closures handed to the host scheduler and not yet invoked.
    pub pending: Seq<u64>,
    /// Closures the host scheduler has invoked, oldest first.
    pub invoked: Seq<u64>,
    /// Identity of the host's scheduling entry point.
    pub defer_target: u64,
}

/// The mock interpreter context: the explicit stand-in for the process-wide
/// interpreter state handle, borrowed exclusively by every bridge
/// operation.
pub struct Interp {
    /// The value stack, bottom first.
    pub stack: Vec<Val>,
    /// The global namespace bindings, first match wins.
    pub globals: Vec<(String, Val)>,
    /// Field bindings of host tables, first match wins.
    pub fields: Vec<(u64, String, Val)>,
    /// The persistent reference registry; a handle is an index.
    pub registry: Vec<RegSlot>,
    /// Every call instruction issued so far, oldest first.
    pub calls: Vec<CallRecord>,
    /// Closures handed to the host scheduler and not yet invoked.
    pub pending: Vec<u64>,
    /// Closures the host scheduler has invoked, oldest first.
    pub invoked: Vec<u64>,
    /// Identity of the host's scheduling entry point.
    pub defer_target: u64,
}

impl View for Interp {
    type V = InterpModel;

    open spec fn view(&self) -> InterpModel {
        InterpModel {
            stack: vals_model(self.stack@),
            globals: globals_model(self.globals@),
            fields: fields_model(self.fields@),
            registry: self.registry@,
            calls: calls_model(self.calls@),
            pending: self.pending@,
            invoked: self.invoked@,
            defer_target: self.defer_target,
        }
    }
}

/// What looking `name` up in the global namespace yields: the value of the
/// first binding with that name, or the absent value.
pub open spec fn global_lookup(gs: Seq<(Seq<char>, ValModel)>, name: Seq<char>) -> ValModel
    decreases gs.len(),
{
    if gs.len() == 0 {
        ValModel::Nil
    } else if gs[0].0 == name {
        gs[0].1
    } else {
        global_lookup(gs.drop_first(), name)
    }
}

/// What looking field `name` of table `t` up yields: the value of the
/// first matching binding, or the absent value.
pub open spec fn field_lookup(fs: Seq<(u64, Seq<char>, ValModel)>, t: u64, name: Seq<char>) -> ValModel
    decreases fs.len(),
{
    if fs.len() == 0 {
        ValModel::Nil
    } else if fs[0].0 == t && fs[0].1 == name {
        fs[0].2
    } else {
        field_lookup(fs.drop_first(), t, name)
    }
}

/// The value that pushing registry reference `h` puts on the stack: the
/// closure the slot holds while it is live, the absent value otherwise.
pub open spec fn ref_value(reg: Seq<RegSlot>, h: int) -> ValModel {
    if 0 <= h < reg.len() && reg[h] is Live {
        ValModel::ClosureRef(reg[h]->Live_0)
    } else {
        ValModel::Nil
    }
}

/// Transition: push the value of global `name` onto the stack.
pub open spec fn sp_get_global(m: InterpModel, name: Seq<char>) -> InterpModel {
    InterpModel { stack: m.stack.push(global_lookup(m.globals, name)), ..m }
}

/// Transition: read the table on top of the stack and push the value of
/// its field `name` (the absent value if the top is not a table or has no
/// such field).
pub open spec fn sp_get_field(m: InterpModel, name: Seq<char>) -> InterpModel {
    let pushed = match m.stack.last() {
        ValModel::Table(t) => field_lookup(m.fields, t, name),
        _ => ValModel::Nil,
    };
    InterpModel { stack: m.stack.push(pushed), ..m }
}

/// Transition: push a text value onto the stack.
pub open spec fn sp_push_text(m: InterpModel, t: Seq<char>) -> InterpModel {
    InterpModel { stack: m.stack.push(ValModel::Text(t)), ..m }
}

/// Transition: push an integer value onto the stack.
pub open spec fn sp_push_int(m: InterpModel, n: i64) -> InterpModel {
    InterpModel { stack: m.stack.push(ValModel::Int(n)), ..m }
}

/// Transition: push a reference to registry slot `h` onto the stack.
pub open spec fn sp_push_ref(m: InterpModel, h: int) -> InterpModel {
    InterpModel { stack: m.stack.push(ref_value(m.registry, h)), ..m }
}

/// Transition: issue the call instruction with arity `nargs` and zero
/// expected results.
///
/// The callee and its arguments leave the stack on every path. When the
/// callee is a callable the call is recorded and succeeds; calling
/// anything else raises an interpreter-level error, reported as `false`.
/// When the callee is the host's scheduling entry point and the single
/// argument is a closure reference, the host captures that closure into
/// its pending queue — independently of the registry slot it was reached
/// through.
pub open spec fn sp_call0(m: InterpModel, nargs: int) -> (InterpModel, bool)
    recommends
        0 <= nargs,
        nargs + 1 <= m.stack.len(),
{
    let cpos = m.stack.len() - nargs - 1;
    let callee = m.stack[cpos];
    let cargs = m.stack.subrange(cpos + 1, m.stack.len() as int);
    let stack2 = m.stack.take(cpos);
    match callee {
        ValModel::Callable(f) => {
            let rec = CallModel { callee: f, args: cargs, nresults: 0 };
            let pending2 = if f == m.defer_target && cargs.len() == 1 && cargs[0] is ClosureRef {
                m.pending.push(cargs[0]->ClosureRef_0)
            } else {
                m.pending
            };
            (InterpModel { stack: stack2, calls: m.calls.push(rec), pending: pending2, ..m }, true)
        },
        _ => (InterpModel { stack: stack2, ..m }, false),
    }
}

/// Transition: pop the top `n` values off the stack.
pub open spec fn sp_pop_n(m: InterpModel, n: int) -> InterpModel
    recommends
        0 <= n <= m.stack.len(),
{
    InterpModel { stack: m.stack.take(m.stack.len() - n), ..m }
}

/// Transition: store a closure in the registry. The new slot's handle is
/// the registry's previous length; slots are never reused.
pub open spec fn sp_register(m: InterpModel, c: u64) -> InterpModel {
    InterpModel { registry: m.registry.push(RegSlot::Live(c)), ..m }
}

/// Transition: release registry slot `h`.
pub open spec fn sp_release(m: InterpModel, h: int) -> InterpModel
    recommends
        0 <= h < m.registry.len(),
{
    InterpModel { registry: m.registry.update(h, RegSlot::Released), ..m }
}

/// Transition: the host scheduler drains one pending deferred invocation,
/// taking the oldest captured closure and consuming it.
pub open spec fn sp_host_invoke_next(m: InterpModel) -> (InterpModel, Option<u64>) {
    if m.pending.len() == 0 {
        (m, None)
    } else {
        (
            InterpModel {
                pending: m.pending.drop_first(),
                invoked: m.invoked.push(m.pending[0]),
                ..m
            },
            Some(m.pending[0]),
        )
    }
}

/// The model of a freshly created context: everything empty, with the
/// host's scheduling entry point fixed.
pub open spec fn empty_model(defer_target: u64) -> InterpModel {
    InterpModel {
        stack: Seq::empty(),
        globals: Seq::empty(),
        fields: Seq::empty(),
        registry: Seq::empty(),
        calls: Seq::empty(),
        pending: Seq::empty(),
        invoked: Seq::empty(),
        defer_target,
    }
}

impl Interp {
    /// Creates a fresh mock context whose host scheduling entry point has
    /// identity `defer_target`.
    pub fn new(defer_target: u64) -> (st: Interp)
        ensures
            st@ == empty_model(defer_target),
    {
        let st = Interp {
            stack: Vec::new(),
            globals: Vec::new(),
            fields: Vec::new(),
            registry: Vec::new(),
            calls: Vec::new(),
            pending: Vec::new(),
            invoked: Vec::new(),
            defer_target,
        };
        proof {
            assert(st@ =~= empty_model(defer_target));
        }
        st
    }

    /// Installs a binding in the global namespace, shadowing any earlier
    /// binding with the same name.
    pub fn set_global(&mut self, name: String, v: Val)
        ensures
            final(self)@ == (InterpModel {
                globals: old(self)@.globals.insert(0, (name@, v@)),
                ..old(self)@
            }),
    {
        self.globals.insert(0, (name, v));
        proof {
            assert(final(self)@ =~= InterpModel {
                globals: old(self)@.globals.insert(0, (name@, v@)),
                ..old(self)@
            });
        }
    }

    /// Installs a field binding on table `t`, shadowing any earlier
    /// binding of the same field.
    pub fn set_field(&mut self, t: u64, name: String, v: Val)
        ensures
            final(self)@ == (InterpModel {
                fields: old(self)@.fields.insert(0, (t, name@, v@)),
                ..old(self)@
            }),
    {
        self.fields.insert(0, (t, name, v));
        proof {
            assert(final(self)@ =~= InterpModel {
                fields: old(self)@.fields.insert(0, (t, name@, v@)),
                ..old(self)@
            });
        }
    }

    /// Looks `name` up in the global namespace, first match first.
    fn lookup_global_val(&self, name: &String) -> (v: Val)
        ensures
            v@ == global_lookup(self@.globals, name@),
    {
        let ghost gm = self@.globals;
        let mut i: usize = 0;
        let n = self.globals.len();
        proof {
            assert(gm.skip(0) =~= gm);
        }
        while i < n
            invariant
                n == self.globals.len(),
                gm == self@.globals,
                0 <= i <= n,
                global_lookup(gm, name@) == global_lookup(gm.skip(i as int), name@),
            decreases n - i,
        {
            proof {
                assert(gm.skip(i as int)[0] == gm[i as int]);
                assert(gm[i as int] == (self.globals@[i as int].0@, self.globals@[i as int].1@));
            }
            if self.globals[i].0 == *name {
                return self.globals[i].1.clone();
            }
            proof {
                assert(gm.skip(i as int).drop_first() =~= gm.skip(i + 1));
            }
            i = i + 1;
        }
        proof {
            assert(gm.skip(n as int) =~= Seq::<(Seq<char>, ValModel)>::empty());
        }
        Val::Nil
    }

    /// Stack primitive: push the value of global `name`.
    pub fn get_global(&mut self, name: &String)
        ensures
            final(self)@ == sp_get_global(old(self)@, name@),
    {
        let found = self.lookup_global_val(name);
        self.stack.push(found);
        proof {
            assert(final(self)@ =~= sp_get_global(old(self)@, name@));
        }
    }

    /// Looks field `name` of table `t` up, first match first.
    fn lookup_field_val(&self, t: u64, name: &String) -> (v: Val)
        ensures
            v@ == field_lookup(self@.fields, t, name@),
    {
        let ghost fm = self@.fields;
        let mut i: usize = 0;
        let n = self.fields.len();
        proof {
            assert(fm.skip(0) =~= fm);
        }
        while i < n
            invariant
                n == self.fields.len(),
                fm == self@.fields,
                0 <= i <= n,
                field_lookup(fm, t, name@) == field_lookup(fm.skip(i as int), t, name@),
            decreases n - i,
        {
            proof {
                assert(fm.skip(i as int)[0] == fm[i as int]);
                assert(fm[i as int] == (
                    self.fields@[i as int].0,
                    self.fields@[i as int].1@,
                    self.fields@[i as int].2@,
                ));
            }
            if self.fields[i].0 == t && self.fields[i].1 == *name {
                return self.fields[i].2.clone();
            }
            proof {
                assert(fm.skip(i as int).drop_first() =~= fm.skip(i + 1));
            }
            i = i + 1;
        }
        proof {
            assert(fm.skip(n as int) =~= Seq::<(u64, Seq<char>, ValModel)>::empty());
        }
        Val::Nil
    }

    /// Stack primitive: read the table on top of the stack and push the
    /// value of its field `name`.
    pub fn get_field_of_top(&mut self, name: &String)
        requires
            old(self)@.stack.len() > 0,
        ensures
            final(self)@ == sp_get_field(old(self)@, name@),
    {
        let top_i = self.stack.len() - 1;
        let t_opt: Option<u64> = match &self.stack[top_i] {
            Val::Table(t) => Some(*t),
            _ => None,
        };
        let found = match t_opt {
            Some(t) => self.lookup_field_val(t, name),
            None => Val::Nil,
        };
        self.stack.push(found);
        proof {
            assert(final(self)@ =~= sp_get_field(old(self)@, name@));
        }
    }

    /// Stack primitive: push a text value. The push protocol is
    /// null-terminated, so the text must not contain an embedded null;
    /// callers validate before pushing.
    pub fn push_text(&mut self, s: String)
        requires
            !contains_nul(s@),
        ensures
            final(self)@ == sp_push_text(old(self)@, s@),
    {
        self.stack.push(Val::Text(s));
        proof {
            assert(final(self)@ =~= sp_push_text(old(self)@, s@));
        }
    }

    /// Stack primitive: push an integer value.
    pub fn push_int(&mut self, n: i64)
        ensures
            final(self)@ == sp_push_int(old(self)@, n),
    {
        self.stack.push(Val::Int(n));
        proof {
            assert(final(self)@ =~= sp_push_int(old(self)@, n));
        }
    }

    /// Stack primitive: push a reference to the value held by registry
    /// slot `h` (the absent value if the slot is unknown or released).
    pub fn push_registry_ref(&mut self, h: usize)
        ensures
            final(self)@ == sp_push_ref(old(self)@, h as int),
    {
        let v = if h < self.registry.len() {
            match self.registry[h] {
                RegSlot::Live(id) => Val::ClosureRef(id),
                RegSlot::Released => Val::Nil,
            }
        } else {
            Val::Nil
        };
        self.stack.push(v);
        proof {
            assert(final(self)@ =~= sp_push_ref(old(self)@, h as int));
        }
    }

    /// Stack primitive: issue the call instruction with arity `nargs` and
    /// zero expected results. Returns whether the callee was a callable;
    /// on every path the callee and its arguments leave the stack, so the
    /// caller's observable stack frame is restored.
    pub fn call0(&mut self, nargs: usize) -> (ok: bool)
        requires
            nargs + 1 <= old(self)@.stack.len(),
        ensures
            final(self)@ == sp_call0(old(self)@, nargs as int).0,
            ok == sp_call0(old(self)@, nargs as int).1,
    {
        let len = self.stack.len();
        let cpos = len - nargs - 1;
        let mut cargs: Vec<Val> = Vec::new();
        let mut i = cpos + 1;
        while i < len
            invariant
                *self == *old(self),
                len == self.stack.len(),
                cpos + 1 <= i <= len,
                cpos == len - nargs - 1,
                cargs@.len() == i - cpos - 1,
                forall|j: int|
                    0 <= j < cargs@.len() ==> (#[trigger] cargs@[j])@ == old(self)@.stack[cpos + 1 + j],
            decreases len - i,
        {
            let v = self.stack[i].clone();
            cargs.push(v);
            i = i + 1;
        }
        proof {
            assert(vals_model(cargs@) =~= old(self)@.stack.subrange(
                cpos + 1,
                old(self)@.stack.len() as int,
            ));
        }
        let callee = self.stack[cpos].clone();
        self.stack.truncate(cpos);
        proof {
            assert(vals_model(self.stack@) =~= old(self)@.stack.take(cpos as int));
        }
        match callee {
            Val::Callable(f) => {
                if f == self.defer_target && cargs.len() == 1 {
                    if let Val::ClosureRef(c) = &cargs[0] {
                        self.pending.push(*c);
                    }
                }
                self.calls.push(CallRecord { callee: f, args: cargs, nresults: 0 });
                proof {
                    assert(calls_model(self.calls@) =~= old(self)@.calls.push(
                        sp_call0(old(self)@, nargs as int).0.calls.last(),
                    ));
                    assert(final(self)@ =~= sp_call0(old(self)@, nargs as int).0);
                }
                true
            },
            _ => {
                proof {
                    assert(final(self)@ =~= sp_call0(old(self)@, nargs as int).0);
                }
                false
            },
        }
    }

    /// Stack primitive: pop the top `n` values.
    pub fn pop_n(&mut self, n: usize)
        requires
            n <= old(self)@.stack.len(),
        ensures
            final(self)@ == sp_pop_n(old(self)@, n as int),
    {
        let keep = self.stack.len() - n;
        self.stack.truncate(keep);
        proof {
            assert(vals_model(self.stack@) =~= old(self)@.stack.take(
                old(self)@.stack.len() - n,
            ));
            assert(final(self)@ =~= sp_pop_n(old(self)@, n as int));
        }
    }

    /// Registry primitive: store a one-shot closure in the persistent
    /// reference registry, consuming it, and return the new slot's handle.
    /// Registration never invokes the closure.
    pub fn register_closure(&mut self, fun: NativeClosure) -> (h: usize)
        ensures
            h == old(self)@.registry.len(),
            final(self)@ == sp_register(old(self)@, fun.id),
    {
        let NativeClosure { id } = fun;
        let h = self.registry.len();
        self.registry.push(RegSlot::Live(id));
        proof {
            assert(final(self)@ =~= sp_register(old(self)@, id));
        }
        h
    }

    /// Registry primitive: release a live registry slot. A handle is
    /// released at most once and never reused afterwards.
    pub fn release_ref(&mut self, h: usize)
        requires
            h < old(self)@.registry.len(),
            old(self)@.registry[h as int] is Live,
        ensures
            final(self)@ == sp_release(old(self)@, h as int),
    {
        self.registry[h] = RegSlot::Released;
        proof {
            assert(final(self)@ =~= sp_release(old(self)@, h as int));
        }
    }

    /// Host model: the cooperative scheduler drains one pending deferred
    /// invocation — take and consume. Returns the identity of the closure
    /// it invoked, if any was pending. This is the only operation that
    /// invokes scheduled closures; the bridge itself never does.
    pub fn host_invoke_next(&mut self) -> (r: Option<u64>)
        ensures
            final(self)@ == sp_host_invoke_next(old(self)@).0,
            r == sp_host_invoke_next(old(self)@).1,
    {
        if self.pending.len() == 0 {
            None
        } else {
            let c = self.pending.remove(0);
            self.invoked.push(c);
            proof {
                assert(self.pending@ =~= old(self)@.pending.drop_first());
                assert(final(self)@ =~= sp_host_invoke_next(old(self)@).0);
            }
            Some(c)
        }
    }
}

} // verus!
