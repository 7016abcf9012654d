//! Interpreter values and native-supplied call arguments.
//!
//! The interpreter's value stack holds [`Val`]s. Native callers hand the
//! bridge [`Arg`]s, which the bridge encodes into [`Val`]s when it pushes
//! them. Both have ghost models ([`ValModel`], [`ArgModel`]) over which all
//! contracts are stated.

use vstd::prelude::*;
use vstd::string::StrSliceExecFns;

verus! {

/// A primitive interpreter value, as it sits on the value stack or in the
/// global namespace of the mock interpreter context.
///
/// Host objects that the bridge never looks inside — callables, tables, and
/// registered native closures — are carried by identity alone.
pub enum Val {
    /// The absent value; what a failed lookup yields.
    Nil,
    /// A text value. The push protocol is null-terminated, so a `Text`
    /// that reaches the stack never contains an embedded null.
    Text(String),
    /// An integer value.
    Int(i64),
    /// A host callable, by identity.
    Callable(u64),
    /// A host table (namespace object), by identity.
    Table(u64),
    /// A registered native closure, by identity.
    ClosureRef(u64),
}

/// The mathematical model of a [`Val`]: text becomes a sequence of
/// characters, everything else is carried as-is.
#[verifier::ext_equal]
pub enum ValModel {
    Nil,
    Text(Seq<char>),
    Int(i64),
    Callable(u64),
    Table(u64),
    ClosureRef(u64),
}

impl View for Val {
    type V = ValModel;

    open spec fn view(&self) -> ValModel {
        match self {
            Val::Nil => ValModel::Nil,
            Val::Text(s) => ValModel::Text(s@),
            Val::Int(n) => ValModel::Int(*n),
            Val::Callable(f) => ValModel::Callable(*f),
            Val::Table(t) => ValModel::Table(*t),
            Val::ClosureRef(c) => ValModel::ClosureRef(*c),
        }
    }
}

impl Clone for Val {
    fn clone(&self) -> (r: Val)
        ensures
            r@ == self@,
    {
        match self {
            Val::Nil => Val::Nil,
            Val::Text(s) => Val::Text(s.clone()),
            Val::Int(n) => Val::Int(*n),
            Val::Callable(f) => Val::Callable(*f),
            Val::Table(t) => Val::Table(*t),
            Val::ClosureRef(c) => Val::ClosureRef(*c),
        }
    }
}

/// A native-supplied argument for a global call: one of the primitive
/// encodings the stack protocol supports.
pub enum Arg {
    /// Text, pushed through the null-terminated string protocol. Must not
    /// contain an embedded null; `call_global` rejects it otherwise.
    Text(String),
    /// An integer value.
    Int(i64),
    /// A registry handle, pushed as a reference to the registered value
    /// (not copied by value).
    RegRef(usize),
}

/// The mathematical model of an [`Arg`].
#[verifier::ext_equal]
pub enum ArgModel {
    Text(Seq<char>),
    Int(i64),
    RegRef(usize),
}

impl View for Arg {
    type V = ArgModel;

    open spec fn view(&self) -> ArgModel {
        match self {
            Arg::Text(s) => ArgModel::Text(s@),
            Arg::Int(n) => ArgModel::Int(*n),
            Arg::RegRef(h) => ArgModel::RegRef(*h),
        }
    }
}

/// Whether a text value contains an embedded null terminator, which the
/// null-terminated push protocol cannot represent.
pub open spec fn contains_nul(s: Seq<char>) -> bool {
    exists|i: int| 0 <= i < s.len() && s[i] == '\0'
}

/// Scans a text value for an embedded null terminator.
pub fn text_has_nul(s: &String) -> (r: bool)
    ensures
        r == contains_nul(s@),
{
    let st = s.as_str();
    let n = st.unicode_len();
    let mut i: usize = 0;
    while i < n
        invariant
            n == s@.len(),
            st@ == s@,
            0 <= i <= n,
            forall|j: int| 0 <= j < i ==> s@[j] != '\0',
        decreases n - i,
    {
        if st.get_char(i) == '\0' {
            return true;
        }
        i = i + 1;
    }
    false
}

} // verus!
