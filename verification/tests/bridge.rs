//! Exercises the exit-status protocol, the translators, the rooted-value
//! registry and the collector-fix latch against the host model.

use host_bridge::env::{Env, GlobalRef, Value};
use host_bridge::error::{CoreSymbols, ErrorKind, PanicPayload, TempValue};
use host_bridge::host::{
    decode_exit, encode_exit, ExitStatus, HostState, ValueData, EXIT_CODE_RETURN,
    EXIT_CODE_SIGNAL, EXIT_CODE_THROW, NIL, SYM_ERROR,
};
use host_bridge::latch::BugFixLatch;

fn setup() -> (HostState, Env, CoreSymbols) {
    let mut h = HostState::new();
    let latch = BugFixLatch::new();
    let mut env = Env::new(&latch, 1);
    let core = env.define_core_errors(&mut h).expect("core errors");
    (h, env, core)
}

#[test]
fn decode_exit_protocol() {
    assert_eq!(decode_exit(EXIT_CODE_RETURN, 5, 6), Some(ExitStatus::Return));
    assert_eq!(
        decode_exit(EXIT_CODE_SIGNAL, 5, 6),
        Some(ExitStatus::Signal { symbol: 5, data: 6 })
    );
    assert_eq!(
        decode_exit(EXIT_CODE_THROW, 7, 8),
        Some(ExitStatus::Throw { tag: 7, value: 8 })
    );
    // Anything past the three documented codes is a protocol violation and
    // must be treated as fatal by the caller, never absorbed.
    assert_eq!(decode_exit(3, 0, 0), None);
    let (code, a, b) = encode_exit(ExitStatus::Throw { tag: 9, value: 10 });
    assert_eq!(decode_exit(code, a, b), Some(ExitStatus::Throw { tag: 9, value: 10 }));
}

#[test]
fn round_trip_signal() {
    let (mut h, mut env, core) = setup();
    h.non_local_exit_signal(SYM_ERROR, NIL);
    let r: Result<u64, ErrorKind> = env.handle_exit(&mut h, 42);
    let e = r.unwrap_err();
    match &e {
        ErrorKind::Signal { symbol, data } => {
            assert_eq!(symbol.raw, SYM_ERROR);
            assert_eq!(data.raw, NIL);
        }
        _ => panic!("expected a signal"),
    }
    // Re-raising reproduces the very same identifiers.
    env.maybe_exit(&mut h, &core, Err(e));
    assert_eq!(h.exit, ExitStatus::Signal { symbol: SYM_ERROR, data: NIL });
}

#[test]
fn round_trip_throw() {
    let (mut h, mut env, core) = setup();
    let tag = h.intern_symbol("my-tag");
    let val = h.make_integer(17);
    h.non_local_exit_throw(tag, val);
    let r: Result<u64, ErrorKind> = env.handle_exit(&mut h, 0);
    let e = r.unwrap_err();
    match &e {
        ErrorKind::Throw { tag: t, value: v } => {
            assert_eq!(t.raw, tag);
            assert_eq!(v.raw, val);
        }
        _ => panic!("expected a throw"),
    }
    env.maybe_exit(&mut h, &core, Err(e));
    assert_eq!(h.exit, ExitStatus::Throw { tag, value: val });
}

#[test]
fn exactly_once_consumption() {
    let (mut h, env, _core) = setup();
    h.non_local_exit_signal(SYM_ERROR, NIL);
    let first: Result<u64, ErrorKind> = env.handle_exit(&mut h, 1);
    assert!(first.is_err());
    // The status was consumed: a fresh check reads a normal return, and a
    // second inbound pass does not re-report the same error.
    assert_eq!(h.non_local_exit_get(), ExitStatus::Return);
    let second: Result<u64, ErrorKind> = env.handle_exit(&mut h, 2);
    assert_eq!(second.unwrap(), 2);
}

#[test]
fn teardown_preserves_pending_exit() {
    let mut h = HostState::new();
    let latch = BugFixLatch::new();
    let mut env = Env::new(&latch, 1);
    assert!(env.protected.is_some());
    let v = env.intern(&mut h, "rooted-one").unwrap();
    let w = env.intern(&mut h, "rooted-two").unwrap();
    assert_eq!(h.refs, vec![v.raw, w.raw]);
    // An exit goes pending in a frame that is about to unwind.
    h.non_local_exit_signal(v.raw, w.raw);
    let pending = h.exit;
    env.teardown(&mut h);
    // Every root was released, invisibly to the pending exit.
    assert_eq!(h.refs.len(), 0);
    assert_eq!(h.exit, pending);
}

#[test]
fn teardown_without_pending_exit() {
    let mut h = HostState::new();
    let latch = BugFixLatch::new();
    let mut env = Env::new(&latch, 1);
    env.intern(&mut h, "rooted").unwrap();
    assert_eq!(h.refs.len(), 1);
    env.teardown(&mut h);
    assert_eq!(h.refs.len(), 0);
    assert_eq!(h.exit, ExitStatus::Return);
}

#[test]
fn rooting_follows_latch() {
    let mut latch = BugFixLatch::new();
    // Undetermined: the defect is assumed present, the conservative choice.
    assert!(Env::new(&latch, 1).protected.is_some());
    assert!(latch.determine(true));
    assert!(Env::new(&latch, 2).protected.is_none());
    assert!(Env::from_runtime(&latch, 3).protected.is_none());
    // Only the first determination wins.
    assert!(!latch.determine(false));
    assert_eq!(latch.get(), Some(true));
    assert!(Env::new(&latch, 4).protected.is_none());

    let mut other = BugFixLatch::new();
    assert!(other.determine(false));
    assert!(Env::new(&other, 1).protected.is_some());
    assert!(Env::from_runtime(&other, 2).protected.is_some());
}

#[test]
fn panic_containment_boom() {
    let (mut h, mut env, core) = setup();
    let payload = PanicPayload::Text { message: String::from("boom") };
    let r = env.handle_panic(&mut h, &core, Err(payload));
    assert_eq!(r, core.rust_panic.raw);
    match h.exit {
        ExitStatus::Signal { symbol, data } => {
            assert_eq!(symbol, core.rust_panic.raw);
            match &h.values[data as usize] {
                ValueData::Cons { car, cdr } => {
                    assert_eq!(*cdr, NIL);
                    match &h.values[*car as usize] {
                        ValueData::Str { text } => assert!(text.contains("boom")),
                        _ => panic!("payload head should be the text"),
                    }
                }
                _ => panic!("payload should be a one-element list"),
            }
        }
        _ => panic!("a native-panic signal should be pending"),
    }
}

#[test]
fn panic_rethrow_known_error() {
    let (mut h, mut env, core) = setup();
    let tag = h.intern_symbol("loop-tag");
    let val = h.make_integer(3);
    let known = ErrorKind::Throw {
        tag: TempValue { raw: tag, origin: env.env_id },
        value: TempValue { raw: val, origin: env.env_id },
    };
    env.handle_panic(&mut h, &core, Err(PanicPayload::Known { error: known }));
    // Re-raised unchanged, not wrapped as a native panic.
    assert_eq!(h.exit, ExitStatus::Throw { tag, value: val });
}

#[test]
fn handle_panic_passes_values_through() {
    let (mut h, mut env, core) = setup();
    let v = env.intern(&mut h, "plain").unwrap();
    let r = env.handle_panic(&mut h, &core, Ok(v));
    assert_eq!(r, v.raw);
    assert_eq!(h.exit, ExitStatus::Return);
}

#[test]
fn maybe_exit_other_error() {
    let (mut h, mut env, core) = setup();
    let e = ErrorKind::Other { message: String::from("file missing") };
    env.maybe_exit(&mut h, &core, Err(e));
    match h.exit {
        ExitStatus::Signal { symbol, data } => {
            assert_eq!(symbol, core.rust_error.raw);
            match &h.values[data as usize] {
                ValueData::Cons { car, .. } => match &h.values[*car as usize] {
                    ValueData::Str { text } => assert_eq!(text, "file missing"),
                    _ => panic!("message expected"),
                },
                _ => panic!("data list expected"),
            }
        }
        _ => panic!("signal expected"),
    }
}

#[test]
fn maybe_exit_passes_values_through() {
    let (mut h, mut env, core) = setup();
    let v = env.intern(&mut h, "plain-result").unwrap();
    let before = h.values.len();
    let r = env.maybe_exit(&mut h, &core, Ok(v));
    assert_eq!(r, v.raw);
    assert_eq!(h.exit, ExitStatus::Return);
    assert_eq!(h.values.len(), before);
}

#[test]
fn intern_is_idempotent() {
    let (mut h, mut env, _core) = setup();
    let a = env.intern(&mut h, "one-symbol").unwrap();
    let heap = h.values.len();
    let b = env.intern(&mut h, "one-symbol").unwrap();
    assert_eq!(a.raw, b.raw);
    assert_eq!(h.values.len(), heap);
    // A pre-interned name resolves to the host's own symbol.
    let err = env.intern(&mut h, "error").unwrap();
    assert_eq!(err.raw, SYM_ERROR);
}

#[test]
fn intern_rejects_interior_nul() {
    let (mut h, mut env, _core) = setup();
    let before = h.values.len();
    match env.intern(&mut h, "bad\0name") {
        Err(ErrorKind::Other { message }) => {
            assert_eq!(message, "string contains an interior nul byte");
        }
        _ => panic!("an encoding error is expected before any host call"),
    }
    assert_eq!(h.values.len(), before);
}

#[test]
fn free_last_protected_releases_one_root() {
    let mut h = HostState::new();
    let latch = BugFixLatch::new();
    let mut env = Env::new(&latch, 1);
    let a = env.intern(&mut h, "kept").unwrap();
    let b = env.intern(&mut h, "dropped").unwrap();
    assert_eq!(h.refs, vec![a.raw, b.raw]);
    env.free_last_protected(&mut h).unwrap();
    assert_eq!(h.refs, vec![a.raw]);
    // Teardown releases only what is still registered.
    env.teardown(&mut h);
    assert_eq!(h.refs.len(), 0);
}

#[test]
fn list_builds_nil_terminated_chain() {
    let (mut h, mut env, _core) = setup();
    let a = env.intern(&mut h, "first").unwrap();
    let b = env.intern(&mut h, "second").unwrap();
    let lv = env.list(&mut h, &vec![a, b]).unwrap();
    match &h.values[lv.raw as usize] {
        ValueData::Cons { car, cdr } => {
            assert_eq!(*car, a.raw);
            match &h.values[*cdr as usize] {
                ValueData::Cons { car: c2, cdr: n } => {
                    assert_eq!(*c2, b.raw);
                    assert_eq!(*n, NIL);
                }
                _ => panic!("second cell expected"),
            }
        }
        _ => panic!("cons expected"),
    }
    let empty = env.list(&mut h, &Vec::new()).unwrap();
    assert_eq!(empty.raw, NIL);
}

#[test]
fn provide_and_message_are_observable() {
    let (mut h, mut env, _core) = setup();
    let f = env.provide(&mut h, "my-feature").unwrap();
    assert_eq!(h.features, vec![f.raw]);
    env.message(&mut h, "hello from native code").unwrap();
    assert_eq!(h.messages, vec![String::from("hello from native code")]);
}

#[test]
fn eq_and_type_of() {
    let (mut h, mut env, _core) = setup();
    let a = env.intern(&mut h, "some-symbol").unwrap();
    let b = env.intern(&mut h, "some-symbol").unwrap();
    let c = env.intern(&mut h, "another").unwrap();
    assert!(env.eq(&h, a, b));
    assert!(!env.eq(&h, a, c));
    assert!(env.is_not_nil(&h, a));
    let t = env.type_of(&mut h, a).unwrap();
    match &h.values[t.raw as usize] {
        ValueData::Symbol { name } => assert_eq!(name, "symbol"),
        _ => panic!("a type symbol is expected"),
    }
    let s = env.make_string(&mut h, "text").unwrap();
    let ts = env.type_of(&mut h, s).unwrap();
    match &h.values[ts.raw as usize] {
        ValueData::Symbol { name } => assert_eq!(name, "string"),
        _ => panic!("a type symbol is expected"),
    }
}

#[test]
fn temp_value_reinterprets_against_origin() {
    let (mut h, mut env, _core) = setup();
    let sym = h.intern_symbol("carried");
    let tv = TempValue { raw: sym, origin: env.env_id };
    let v: Value = tv.value(&mut env, &mut h);
    assert_eq!(v.raw, sym);
    assert_eq!(v.env_id, env.env_id);
    // Reinterpretation roots the value like any other obtained one.
    assert_eq!(*h.refs.last().unwrap(), sym);
}

#[test]
fn global_ref_binds_across_handles() {
    let (mut h, mut env, _core) = setup();
    let v = env.intern(&mut h, "global-sym").unwrap();
    let g = GlobalRef::new(&mut h, v);
    assert_eq!(g.raw, v.raw);
    let latch = BugFixLatch::new();
    let env2 = Env::new(&latch, 2);
    let bound = g.bind(&env2);
    assert_eq!(bound.raw, v.raw);
    assert_eq!(bound.env_id, 2);
}

#[test]
fn teardown_with_rooting_disabled_is_a_no_op() {
    let mut h = HostState::new();
    let mut latch = BugFixLatch::new();
    latch.determine(true);
    let mut env = Env::new(&latch, 1);
    assert!(env.protected.is_none());
    env.intern(&mut h, "not-rooted").unwrap();
    // Nothing was rooted, so teardown releases nothing.
    assert_eq!(h.refs.len(), 0);
    h.non_local_exit_signal(SYM_ERROR, NIL);
    let pending = h.exit;
    env.teardown(&mut h);
    assert_eq!(h.exit, pending);
    assert_eq!(h.refs.len(), 0);
}

#[test]
fn divide_extremes() {
    let (mut h, _env, _core) = setup();
    let min = h.make_integer(i64::MIN);
    let minus_one = h.make_integer(-1);
    // The one quotient the host's integer range cannot hold.
    let q = h.div_int(min, minus_one);
    assert_eq!(q, NIL);
    assert_eq!(
        h.exit,
        ExitStatus::Signal { symbol: host_bridge::host::SYM_ARITH_ERROR, data: NIL }
    );
    h.non_local_exit_clear();
    let one = h.make_integer(1);
    let q2 = h.div_int(min, one);
    match &h.values[q2 as usize] {
        ValueData::Int { n } => assert_eq!(*n, i64::MIN),
        _ => panic!("an integer quotient is expected"),
    }
}

#[test]
fn core_errors_record_hierarchy() {
    let (h, _env, core) = setup();
    // The three built-in declarations, in order, with their messages and
    // parent sets: rust-panic and rust-error under the host's root error
    // symbol, and the wrong-type symbol under rust-error and the host's
    // own wrong-type-argument, so it is catchable through either.
    let n = h.defined_errors.len();
    let (s1, m1, p1) = h.defined_errors[n - 3].clone();
    assert_eq!(s1, core.rust_panic.raw);
    assert_eq!(m1, "Rust panic");
    assert_eq!(p1, vec![SYM_ERROR]);
    let (s2, m2, p2) = h.defined_errors[n - 2].clone();
    assert_eq!(s2, core.rust_error.raw);
    assert_eq!(m2, "Rust error");
    assert_eq!(p2, vec![SYM_ERROR]);
    let (s3, m3, p3) = h.defined_errors[n - 1].clone();
    assert_eq!(s3, core.rust_wrong_type_user_ptr.raw);
    assert_eq!(m3, "Wrong type user-ptr");
    assert_eq!(
        p3,
        vec![core.rust_error.raw, host_bridge::host::SYM_WRONG_TYPE_ARGUMENT]
    );
}
