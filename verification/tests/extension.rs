//! Exercises the sample extension functions and the error-hierarchy
//! registrar against the host model.

use host_bridge::env::{Env, Value};
use host_bridge::error::{CoreSymbols, ErrorKind, ResultExt};
use host_bridge::host::{
    ExitStatus, FuncBehavior, HostState, ValueData, NIL, SYM_ARITH_ERROR,
    SYM_INVALID_FUNCTION, SYM_WRONG_TYPE_ARGUMENT,
};
use host_bridge::latch::BugFixLatch;
use host_bridge::registrar::{ErrorDef, Registrar};
use host_bridge::sample;

fn setup() -> (HostState, Env, CoreSymbols) {
    let mut h = HostState::new();
    let latch = BugFixLatch::new();
    let mut env = Env::new(&latch, 1);
    let core = env.define_core_errors(&mut h).expect("core errors");
    (h, env, core)
}

fn int_val(h: &mut HostState, env: &Env, n: i64) -> Value {
    Value { raw: h.make_integer(n), env_id: env.env_id }
}

#[test]
fn lisp_divide_truncates() {
    let (mut h, mut env, _core) = setup();
    let a = int_val(&mut h, &env, 7);
    let b = int_val(&mut h, &env, 2);
    assert_eq!(sample::lisp_divide(&mut env, &mut h, a, b).unwrap(), 3);
    let c = int_val(&mut h, &env, -7);
    let d = int_val(&mut h, &env, 2);
    // Truncation toward zero, as the host divides.
    assert_eq!(sample::lisp_divide(&mut env, &mut h, c, d).unwrap(), -3);
    let e = int_val(&mut h, &env, -9);
    let f = int_val(&mut h, &env, -2);
    assert_eq!(sample::lisp_divide(&mut env, &mut h, e, f).unwrap(), 4);
}

#[test]
fn lisp_divide_by_zero_signals() {
    let (mut h, mut env, _core) = setup();
    let a = int_val(&mut h, &env, 1);
    let b = int_val(&mut h, &env, 0);
    match sample::lisp_divide(&mut env, &mut h, a, b) {
        Err(ErrorKind::Signal { symbol, .. }) => assert_eq!(symbol.raw, SYM_ARITH_ERROR),
        _ => panic!("an arithmetic-error signal is expected"),
    }
    assert_eq!(h.exit, ExitStatus::Return);
}

#[test]
fn lisp_divide_wrong_type() {
    let (mut h, mut env, _core) = setup();
    let s = Value { raw: h.make_string("seven"), env_id: env.env_id };
    let b = int_val(&mut h, &env, 2);
    match sample::lisp_divide(&mut env, &mut h, s, b) {
        Err(ErrorKind::Signal { symbol, .. }) => {
            assert_eq!(symbol.raw, SYM_WRONG_TYPE_ARGUMENT)
        }
        _ => panic!("a wrong-type-argument signal is expected"),
    }
}

#[test]
fn get_type_returns_signalled_symbol() {
    let (mut h, mut env, _core) = setup();
    let sym = h.intern_symbol("void-variable");
    let data = h.make_integer(1);
    let f = Value {
        raw: h.make_function(FuncBehavior::Signals { symbol: sym, data }),
        env_id: env.env_id,
    };
    let got = sample::get_type(&mut env, &mut h, f).unwrap();
    assert_eq!(got.raw, sym);
}

#[test]
fn get_type_passes_plain_results() {
    let (mut h, mut env, _core) = setup();
    let r = h.make_integer(11);
    let f = Value {
        raw: h.make_function(FuncBehavior::Returns { result: r }),
        env_id: env.env_id,
    };
    assert_eq!(sample::get_type(&mut env, &mut h, f).unwrap().raw, r);
    // Calling something that is not a function signals invalid-function,
    // whose symbol is then what comes back.
    let n = int_val(&mut h, &env, 5);
    assert_eq!(
        sample::get_type(&mut env, &mut h, n).unwrap().raw,
        SYM_INVALID_FUNCTION
    );
}

#[test]
fn catch_matching_tag() {
    let (mut h, mut env, _core) = setup();
    let tag = h.intern_symbol("done");
    let thrown = h.make_integer(99);
    let lambda = Value {
        raw: h.make_function(FuncBehavior::Throws { tag, value: thrown }),
        env_id: env.env_id,
    };
    let expected = Value { raw: tag, env_id: env.env_id };
    let got = sample::catch(&mut env, &mut h, expected, lambda).unwrap();
    assert_eq!(got.raw, thrown);
    assert_eq!(h.exit, ExitStatus::Return);
}

#[test]
fn catch_other_tag_propagates() {
    let (mut h, mut env, _core) = setup();
    let tag = h.intern_symbol("done");
    let other = h.intern_symbol("not-done");
    let thrown = h.make_integer(99);
    let lambda = Value {
        raw: h.make_function(FuncBehavior::Throws { tag, value: thrown }),
        env_id: env.env_id,
    };
    let expected = Value { raw: other, env_id: env.env_id };
    match sample::catch(&mut env, &mut h, expected, lambda) {
        Err(ErrorKind::Throw { tag: t, value: v }) => {
            assert_eq!(t.raw, tag);
            assert_eq!(v.raw, thrown);
        }
        _ => panic!("the throw should propagate"),
    }
}

#[test]
fn signal_carries_message() {
    let (mut h, mut env, core) = setup();
    let sym = Value { raw: core.rust_error.raw, env_id: env.env_id };
    match sample::signal(&mut env, &mut h, sym, "something broke") {
        Err(ErrorKind::Signal { symbol, data }) => {
            assert_eq!(symbol.raw, core.rust_error.raw);
            match &h.values[data.raw as usize] {
                ValueData::Cons { car, cdr } => {
                    assert_eq!(*cdr, NIL);
                    match &h.values[*car as usize] {
                        ValueData::Str { text } => assert_eq!(text, "something broke"),
                        _ => panic!("message expected"),
                    }
                }
                _ => panic!("data list expected"),
            }
        }
        _ => panic!("a signal error is expected"),
    }
}

#[test]
fn parse_arg_indexes_and_reads() {
    let (mut h, mut env, _core) = setup();
    let idx = int_val(&mut h, &env, 2);
    let filler = int_val(&mut h, &env, 0);
    let s = Value { raw: h.make_string("the-arg"), env_id: env.env_id };
    let args = vec![idx, filler, s];
    assert_eq!(sample::parse_arg(&mut env, &mut h, &args).unwrap(), "the-arg");
    // A non-string at the index fails as the marshaller would.
    let args2 = vec![int_val(&mut h, &env, 1), filler];
    match sample::parse_arg(&mut env, &mut h, &args2) {
        Err(ErrorKind::Signal { symbol, .. }) => {
            assert_eq!(symbol.raw, SYM_WRONG_TYPE_ARGUMENT)
        }
        _ => panic!("a wrong-type-argument signal is expected"),
    }
}

#[test]
fn wrong_type_user_ptr_surfaces_expected_text() {
    let (mut h, mut env, core) = setup();
    let wrapped = Value { raw: h.make_user_ptr("RefCell<f64>"), env_id: env.env_id };
    let err = match sample::expect_user_ptr(&mut env, &mut h, wrapped, "RefCell<i64>") {
        Err(e) => e,
        Ok(()) => panic!("the native type tag differs, so this must fail"),
    };
    match &err {
        ErrorKind::WrongTypeUserPtr { expected } => assert_eq!(expected, "RefCell<i64>"),
        _ => panic!("the dedicated wrong-type error is expected"),
    }
    // Surfaced to the host as a signal under the wrong-type symbol with
    // exactly the descriptive text.
    env.maybe_exit(&mut h, &core, Err(err));
    match h.exit {
        ExitStatus::Signal { symbol, data } => {
            assert_eq!(symbol, core.rust_wrong_type_user_ptr.raw);
            match &h.values[data as usize] {
                ValueData::Cons { car, .. } => match &h.values[*car as usize] {
                    ValueData::Str { text } => assert_eq!(text, "expected: RefCell<i64>"),
                    _ => panic!("message expected"),
                },
                _ => panic!("data list expected"),
            }
        }
        _ => panic!("signal expected"),
    }
}

#[test]
fn matching_user_ptr_passes() {
    let (mut h, mut env, _core) = setup();
    let wrapped = Value { raw: h.make_user_ptr("RefCell<i64>"), env_id: env.env_id };
    assert!(sample::expect_user_ptr(&mut env, &mut h, wrapped, "RefCell<i64>").is_ok());
}

#[test]
fn init_declares_custom_error() {
    let (mut h, mut env, core) = setup();
    let g = sample::init(&mut env, &mut h, &core).unwrap();
    let (sym, msg, parents) = h.defined_errors.last().unwrap().clone();
    assert_eq!(sym, g.raw);
    assert_eq!(msg, "Hello");
    // The recorded hierarchy: the custom error's one parent is the
    // bridge's generic native-error symbol.
    assert_eq!(parents, vec![core.rust_error.raw]);
    match &h.values[g.raw as usize] {
        ValueData::Symbol { name } => assert_eq!(name, "emacs-module-rs-test-error"),
        _ => panic!("the custom error is a symbol"),
    }
    // The exported signalling function raises it.
    match sample::signal_custom(&mut env, &mut h, &g) {
        Err(ErrorKind::Signal { symbol, data }) => {
            assert_eq!(symbol.raw, g.raw);
            assert_eq!(data.raw, NIL);
        }
        _ => panic!("a signal error is expected"),
    }
}

fn def(name: &str, message: &str, parents: &[&str]) -> ErrorDef {
    ErrorDef {
        name: String::from(name),
        message: String::from(message),
        parents: parents.iter().map(|p| String::from(*p)).collect(),
    }
}

#[test]
fn activation_runs_in_queuing_order() {
    // The parent is declared first, so the child's parent exists in time.
    let mut h = HostState::new();
    let latch = BugFixLatch::new();
    let mut env = Env::new(&latch, 1);
    let mut reg = Registrar::new();
    assert!(!reg.drained);
    reg.enqueue(def("rust-error", "Rust error", &["error"]));
    reg.enqueue(def("my-error", "My error", &["rust-error"]));
    sample_activate_ok(&mut reg, &mut env, &mut h);
    assert!(reg.drained);
    let names: Vec<String> = h
        .defined_errors
        .iter()
        .map(|(sym, _, _)| match &h.values[*sym as usize] {
            ValueData::Symbol { name } => name.clone(),
            _ => String::new(),
        })
        .collect();
    assert!(names.contains(&String::from("rust-error")));
    assert!(names.contains(&String::from("my-error")));
    // The recorded hierarchy: my-error's one parent is the rust-error
    // symbol declared just before it.
    let n = h.defined_errors.len();
    let (parent_sym, _, _) = h.defined_errors[n - 2].clone();
    let (_, _, child_parents) = h.defined_errors[n - 1].clone();
    assert_eq!(child_parents, vec![parent_sym]);
}

fn sample_activate_ok(reg: &mut Registrar, env: &mut Env, h: &mut HostState) {
    reg.activate(env, h).expect("activation in declaration order succeeds");
}

#[test]
fn activation_in_swapped_order_fails() {
    // The child is queued first: its parent does not exist yet, and the
    // declaration failure aborts activation rather than passing silently.
    let mut h = HostState::new();
    let latch = BugFixLatch::new();
    let mut env = Env::new(&latch, 1);
    let mut reg = Registrar::new();
    reg.enqueue(def("my-error", "My error", &["rust-error"]));
    reg.enqueue(def("rust-error", "Rust error", &["error"]));
    let before = h.defined_errors.len();
    match reg.activate(&mut env, &mut h) {
        Err(ErrorKind::Signal { .. }) => {}
        _ => panic!("activation must fail when a parent is missing"),
    }
    assert!(reg.drained);
    // Nothing was declared past the failing entry.
    assert_eq!(h.defined_errors.len(), before);
    assert_eq!(h.exit, ExitStatus::Return);
}

#[test]
fn or_signal_converts_rendered_errors() {
    let (mut h, mut env, core) = setup();
    let ok: Result<i64, String> = Ok(5);
    let sym = Value { raw: core.rust_error.raw, env_id: env.env_id };
    assert_eq!(ok.or_signal(&mut env, &mut h, sym).unwrap(), 5);
    let bad: Result<i64, String> = Err(String::from("rendered failure"));
    match bad.or_signal(&mut env, &mut h, sym) {
        Err(ErrorKind::Signal { symbol, data }) => {
            assert_eq!(symbol.raw, core.rust_error.raw);
            match &h.values[data.raw as usize] {
                ValueData::Cons { car, .. } => match &h.values[*car as usize] {
                    ValueData::Str { text } => assert_eq!(text, "rendered failure"),
                    _ => panic!("message expected"),
                },
                _ => panic!("data list expected"),
            }
        }
        _ => panic!("a signal error is expected"),
    }
}

#[test]
fn activation_of_empty_queue_succeeds() {
    let mut h = HostState::new();
    let latch = BugFixLatch::new();
    let mut env = Env::new(&latch, 1);
    let mut reg = Registrar::new();
    let before = h.defined_errors.len();
    reg.activate(&mut env, &mut h).expect("an empty queue is admissible");
    assert!(reg.drained);
    assert_eq!(h.defined_errors.len(), before);
}

#[test]
fn activation_without_parents_succeeds() {
    let mut h = HostState::new();
    let latch = BugFixLatch::new();
    let mut env = Env::new(&latch, 1);
    let mut reg = Registrar::new();
    reg.enqueue(def("stand-alone", "Stand alone", &[]));
    reg.activate(&mut env, &mut h).expect("no parents to miss");
    let (sym, msg, parents) = h.defined_errors.last().unwrap().clone();
    assert_eq!(msg, "Stand alone");
    assert!(parents.is_empty());
    match &h.values[sym as usize] {
        ValueData::Symbol { name } => assert_eq!(name, "stand-alone"),
        _ => panic!("a symbol is expected"),
    }
}
