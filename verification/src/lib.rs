//! A verified bridge between native code and an embedded, stack-based
//! scripting interpreter.
//!
//! The interpreter itself lives in the host application; this crate models
//! its observable surface — the value stack, the global namespace, the
//! persistent reference registry, and the host's deferral queue — as an
//! explicit, exclusively-borrowed context ([`interp::Interp`]), and builds
//! the two native-facing operations on top of it:
//!
//! * [`bridge::call_global`] / [`bridge::print`]: push arguments, call a
//!   named global, discard results, with a stack-balance guarantee;
//! * [`bridge::schedule`]: hand a one-shot native closure to the host's
//!   scheduler for deferred invocation, releasing the interpreter-side
//!   registry entry exactly once.

use vstd::prelude::*;

pub mod bridge;
pub mod interp;
pub mod laws;
pub mod value;

verus! {

pub use bridge::ErrorKind;
pub use bridge::call_global;
pub use bridge::print;
pub use bridge::schedule;
pub use interp::Interp;
pub use interp::NativeClosure;
pub use value::Arg;
pub use value::Val;

} // verus!
