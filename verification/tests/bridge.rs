//! Tests of the stack-caller operations: `call_global` and `print`.

use lua_bridge::bridge::ErrorKind;
use lua_bridge::bridge::call_global;
use lua_bridge::bridge::print;
use lua_bridge::interp::Interp;
use lua_bridge::interp::NativeClosure;
use lua_bridge::value::Arg;
use lua_bridge::value::Val;

const DEFER: u64 = 7;

fn with_print_global() -> Interp {
    let mut st = Interp::new(DEFER);
    st.set_global("print".to_owned(), Val::Callable(1));
    st
}

#[test]
fn print_emits_exactly_one_message() {
    let mut st = with_print_global();
    let r = print(&mut st, "Hello Mars!".to_owned());
    assert!(r.is_ok());
    assert_eq!(st.stack.len(), 0);
    assert_eq!(st.calls.len(), 1);
    let rec = &st.calls[0];
    assert_eq!(rec.callee, 1);
    assert_eq!(rec.args.len(), 1);
    assert!(matches!(&rec.args[0], Val::Text(t) if t == "Hello Mars!"));
    assert_eq!(rec.nresults, 0);
    assert_eq!(st.registry.len(), 0);
    assert_eq!(st.pending.len(), 0);
    assert_eq!(st.invoked.len(), 0);
}

#[test]
fn print_succeeds_on_plain_text() {
    let mut st = with_print_global();
    for text in ["", "a", "hello world", "nul at no position"] {
        let depth_before = st.stack.len();
        let r = print(&mut st, text.to_owned());
        assert!(r.is_ok());
        assert_eq!(st.stack.len(), depth_before);
    }
    assert_eq!(st.calls.len(), 4);
}

#[test]
fn print_rejects_embedded_nul() {
    let mut st = with_print_global();
    let r = print(&mut st, "Hello\0Mars!".to_owned());
    assert_eq!(r, Err(ErrorKind::InvalidArgument));
    // Zero interpreter interactions: nothing looked up, pushed, or called.
    assert_eq!(st.stack.len(), 0);
    assert_eq!(st.calls.len(), 0);
    assert_eq!(st.registry.len(), 0);
    assert_eq!(st.pending.len(), 0);
    assert_eq!(st.invoked.len(), 0);
    assert_eq!(st.globals.len(), 1);
}

#[test]
fn print_rejects_nul_at_either_end() {
    let mut st = with_print_global();
    assert_eq!(print(&mut st, "\0tail".to_owned()), Err(ErrorKind::InvalidArgument));
    assert_eq!(print(&mut st, "head\0".to_owned()), Err(ErrorKind::InvalidArgument));
    assert_eq!(print(&mut st, "\0".to_owned()), Err(ErrorKind::InvalidArgument));
    assert_eq!(st.calls.len(), 0);
}

#[test]
fn print_twice_gives_two_independent_emissions() {
    let mut st = with_print_global();
    assert!(print(&mut st, "again".to_owned()).is_ok());
    assert_eq!(st.stack.len(), 0);
    assert!(print(&mut st, "again".to_owned()).is_ok());
    assert_eq!(st.stack.len(), 0);
    assert_eq!(st.calls.len(), 2);
    for rec in &st.calls {
        assert_eq!(rec.callee, 1);
        assert_eq!(rec.args.len(), 1);
        assert!(matches!(&rec.args[0], Val::Text(t) if t == "again"));
        assert_eq!(rec.nresults, 0);
    }
}

#[test]
fn print_fails_when_global_missing() {
    let mut st = Interp::new(DEFER);
    let r = print(&mut st, "lost".to_owned());
    assert_eq!(r, Err(ErrorKind::InterpreterCallFailed));
    // The stack is restored to balance even on the error exit.
    assert_eq!(st.stack.len(), 0);
    assert_eq!(st.calls.len(), 0);
}

#[test]
fn print_fails_when_global_not_callable() {
    let mut st = Interp::new(DEFER);
    st.set_global("print".to_owned(), Val::Int(3));
    let r = print(&mut st, "lost".to_owned());
    assert_eq!(r, Err(ErrorKind::InterpreterCallFailed));
    assert_eq!(st.stack.len(), 0);
    assert_eq!(st.calls.len(), 0);
}

#[test]
fn call_global_pushes_arguments_in_order() {
    let mut st = Interp::new(DEFER);
    st.set_global("f".to_owned(), Val::Callable(9));
    let args = vec![Arg::Text("a".to_owned()), Arg::Int(5), Arg::Text("b".to_owned())];
    let r = call_global(&mut st, &"f".to_owned(), &args);
    assert!(r.is_ok());
    assert_eq!(st.stack.len(), 0);
    assert_eq!(st.calls.len(), 1);
    let rec = &st.calls[0];
    assert_eq!(rec.callee, 9);
    assert_eq!(rec.args.len(), 3);
    assert!(matches!(&rec.args[0], Val::Text(t) if t == "a"));
    assert!(matches!(&rec.args[1], Val::Int(5)));
    assert!(matches!(&rec.args[2], Val::Text(t) if t == "b"));
}

#[test]
fn call_global_checks_every_text_before_any_push() {
    let mut st = Interp::new(DEFER);
    st.set_global("f".to_owned(), Val::Callable(9));
    let args = vec![Arg::Text("fine".to_owned()), Arg::Text("b\0ad".to_owned())];
    let r = call_global(&mut st, &"f".to_owned(), &args);
    assert_eq!(r, Err(ErrorKind::InvalidArgument));
    assert_eq!(st.stack.len(), 0);
    assert_eq!(st.calls.len(), 0);
}

#[test]
fn call_global_passes_live_registry_reference() {
    let mut st = Interp::new(DEFER);
    st.set_global("f".to_owned(), Val::Callable(9));
    let h = st.register_closure(NativeClosure { id: 5 });
    let r = call_global(&mut st, &"f".to_owned(), &vec![Arg::RegRef(h)]);
    assert!(r.is_ok());
    let rec = &st.calls[0];
    assert!(matches!(rec.args[0], Val::ClosureRef(5)));
}

#[test]
fn call_global_shadowed_binding_wins() {
    let mut st = with_print_global();
    st.set_global("print".to_owned(), Val::Callable(2));
    assert!(print(&mut st, "shadowed".to_owned()).is_ok());
    assert_eq!(st.calls[0].callee, 2);
}
