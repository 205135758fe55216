//! A small sample extension built on the bridge, exercising error
//! reporting and handling end to end: calling host functions and
//! pattern-matching the captured errors, raising signals from native code,
//! marshalling arguments, and declaring a custom error at activation time.

use vstd::prelude::*;

use crate::env::{Env, GlobalRef, Value};
use crate::error::{CoreSymbols, ErrorKind};
use crate::host::{ExitStatus, FuncBehavior, HostState, ValueData, SYM_ARITH_ERROR,
    SYM_INVALID_FUNCTION, SYM_WRONG_TYPE_ARGUMENT};

verus! {

/// Divides two host integer values through the host's division subroutine,
/// after checking both arguments the way argument marshalling would, and
/// reads the quotient back out as a native integer.
pub fn lisp_divide(env: &mut Env, h: &mut HostState, x: Value, y: Value) -> (r: Result<
    i64,
    ErrorKind,
>)
    requires
        old(env).inv(*old(h)),
        old(h).wf(),
        old(h).exit == ExitStatus::Return,
        old(env).issued(x),
        old(env).issued(y),
        old(h).valid_id(x.raw),
        old(h).valid_id(y.raw),
    ensures
        final(h).wf(),
        final(env).inv(*final(h)),
        final(h).exit == ExitStatus::Return,
        match (old(h).values@[x.raw as int], old(h).values@[y.raw as int]) {
            (ValueData::Int { n: a }, ValueData::Int { n: b }) => {
                if b == 0 || (a == i64::MIN && b == -1) {
                    r matches Err(ErrorKind::Signal { symbol: s, .. }) && s.raw
                        == SYM_ARITH_ERROR
                } else {
                    r == Result::<i64, ErrorKind>::Ok(
                        HostState::trunc_div(a as int, b as int) as i64,
                    )
                }
            },
            _ => r matches Err(ErrorKind::Signal { symbol: s, .. }) && s.raw
                == SYM_WRONG_TYPE_ARGUMENT,
        },
{
    let _xi = match env.int_value(h, x) {
        Ok(v) => v,
        Err(e) => {
            return Err(e);
        },
    };
    let _yi = match env.int_value(h, y) {
        Ok(v) => v,
        Err(e) => {
            return Err(e);
        },
    };
    let q = match env.divide(h, x, y) {
        Ok(v) => v,
        Err(e) => {
            return Err(e);
        },
    };
    env.int_value(h, q)
}

/// Calls the given function and, if the call signals an error, returns the
/// error's symbol instead of failing; other outcomes pass through.
pub fn get_type(env: &mut Env, h: &mut HostState, f: Value) -> (r: Result<Value, ErrorKind>)
    requires
        old(env).inv(*old(h)),
        old(h).wf(),
        old(h).exit == ExitStatus::Return,
        old(env).issued(f),
        old(h).valid_id(f.raw),
    ensures
        final(h).wf(),
        final(env).inv(*final(h)),
        final(h).exit == ExitStatus::Return,
        match old(h).values@[f.raw as int] {
            ValueData::Func { behavior } => match behavior {
                FuncBehavior::Returns { result } => r matches Ok(v) && v.raw == result,
                FuncBehavior::Signals { symbol, .. } => r matches Ok(v) && v.raw == symbol,
                FuncBehavior::Throws { tag, value } => r matches Err(ErrorKind::Throw {
                    tag: t,
                    value: w,
                }) && t.raw == tag && w.raw == value,
            },
            _ => r matches Ok(v) && v.raw == SYM_INVALID_FUNCTION,
        },
{
    proof {
        assert(old(h).entry_wf(f.raw as int));
    }
    match env.call0(h, f) {
        Err(e) => {
            match &e {
                ErrorKind::Signal { symbol, .. } => Ok(symbol.value(env, h)),
                _ => Err(e),
            }
        },
        Ok(v) => Ok(v),
    }
}

/// Calls the given function and, if it throws the expected tag, returns
/// the thrown value; any other outcome passes through, a throw with a
/// different tag included.
pub fn catch(env: &mut Env, h: &mut HostState, expected_tag: Value, lambda: Value) -> (r: Result<
    Value,
    ErrorKind,
>)
    requires
        old(env).inv(*old(h)),
        old(h).wf(),
        old(h).exit == ExitStatus::Return,
        old(env).issued(expected_tag),
        old(env).issued(lambda),
        old(h).valid_id(expected_tag.raw),
        old(h).valid_id(lambda.raw),
    ensures
        final(h).wf(),
        final(env).inv(*final(h)),
        final(h).exit == ExitStatus::Return,
        match old(h).values@[lambda.raw as int] {
            ValueData::Func { behavior } => match behavior {
                FuncBehavior::Returns { result } => r matches Ok(v) && v.raw == result,
                FuncBehavior::Signals { symbol, data } => r matches Err(ErrorKind::Signal {
                    symbol: s,
                    data: d,
                }) && s.raw == symbol && d.raw == data,
                FuncBehavior::Throws { tag, value } => {
                    if tag == expected_tag.raw {
                        r matches Ok(v) && v.raw == value
                    } else {
                        r matches Err(ErrorKind::Throw { tag: t, value: w }) && t.raw == tag
                            && w.raw == value
                    }
                },
            },
            _ => r matches Err(ErrorKind::Signal { symbol: s, .. }) && s.raw
                == SYM_INVALID_FUNCTION,
        },
{
    proof {
        assert(old(h).entry_wf(lambda.raw as int));
    }
    match env.call0(h, lambda) {
        Err(e) => {
            match &e {
                ErrorKind::Throw { tag, value } => {
                    let tv = tag.value(env, h);
                    if env.eq(h, tv, expected_tag) {
                        Ok(value.value(env, h))
                    } else {
                        Err(e)
                    }
                },
                _ => Err(e),
            }
        },
        Ok(v) => Ok(v),
    }
}

/// Raises a signal from native code under the given symbol, carrying the
/// message as the single element of the signal data.
pub fn signal(env: &mut Env, h: &mut HostState, symbol: Value, message: &str) -> (r: Result<
    (),
    ErrorKind,
>)
    requires
        old(env).inv(*old(h)),
        old(h).wf(),
        old(h).exit == ExitStatus::Return,
        old(env).issued(symbol),
        old(h).valid_id(symbol.raw),
    ensures
        final(h).wf(),
        final(env).inv(*final(h)),
        final(h).exit == ExitStatus::Return,
        r matches Err(ErrorKind::Signal { symbol: s, data: d }) && {
            &&& s.raw == symbol.raw
            &&& s.origin == old(env).env_id
            &&& d.origin == old(env).env_id
            &&& final(h).valid_id(d.raw)
            &&& final(h).list_elems(d.raw).len() == 1
            &&& (final(h).values@[final(h).list_elems(d.raw)[0] as int] matches ValueData::Str {
                text,
            } && text@ == message@)
        },
{
    let mv = match env.make_string(h, message) {
        Ok(v) => v,
        Err(e) => {
            return Err(e);
        },
    };
    let data = vec![mv];
    env.signal(h, symbol, &data)
}

/// Marshals two arguments the way an exported function's argument parser
/// would: the first argument is an index, and the argument at that index
/// is a string.
pub fn parse_arg(env: &mut Env, h: &mut HostState, args: &Vec<Value>) -> (r: Result<
    String,
    ErrorKind,
>)
    requires
        old(env).inv(*old(h)),
        old(h).wf(),
        old(h).exit == ExitStatus::Return,
        args@.len() >= 1,
        forall|k: int|
            0 <= k < args@.len() ==> old(env).issued(#[trigger] args@[k]) && old(h).valid_id(
                args@[k].raw,
            ),
        old(h).values@[args@[0].raw as int] matches ValueData::Int { n } ==> 0 <= n
            < args@.len(),
    ensures
        final(h).wf(),
        final(env).inv(*final(h)),
        final(h).exit == ExitStatus::Return,
        HostState::same_heap(*old(h), *final(h)),
        match old(h).values@[args@[0].raw as int] {
            ValueData::Int { n } => match old(h).values@[args@[n as int].raw as int] {
                ValueData::Str { text } => r matches Ok(s) && s@ == text@,
                _ => r matches Err(ErrorKind::Signal { symbol: s, .. }) && s.raw
                    == SYM_WRONG_TYPE_ARGUMENT,
            },
            _ => r matches Err(ErrorKind::Signal { symbol: s, .. }) && s.raw
                == SYM_WRONG_TYPE_ARGUMENT,
        },
{
    let first = *vstd::std_specs::vec::vec_index(args, 0);
    let i = match env.int_value(h, first) {
        Ok(n) => n,
        Err(e) => {
            return Err(e);
        },
    };
    let alen = args.len();
    proof {
        assert(0 <= i && (i as int) < (alen as int));
    }
    let target = *vstd::std_specs::vec::vec_index(args, i as usize);
    env.string_value(h, target)
}

/// Checks that a value wraps a native pointer of the expected native type;
/// the mismatch surfaces as the dedicated wrong-type native error carrying
/// the expected type's name.
pub fn expect_user_ptr(env: &mut Env, h: &mut HostState, v: Value, expected: &str) -> (r: Result<
    (),
    ErrorKind,
>)
    requires
        old(env).inv(*old(h)),
        old(h).wf(),
        old(h).exit == ExitStatus::Return,
        old(env).issued(v),
        old(h).valid_id(v.raw),
    ensures
        final(h).wf(),
        final(env).inv(*final(h)),
        final(h).exit == ExitStatus::Return,
        HostState::same_heap(*old(h), *final(h)),
        match old(h).values@[v.raw as int] {
            ValueData::UserPtr { type_tag } => {
                if type_tag@ == expected@ {
                    r == Result::<(), ErrorKind>::Ok(())
                } else {
                    r matches Err(ErrorKind::WrongTypeUserPtr { expected: e }) && e@ == expected@
                }
            },
            _ => r matches Err(ErrorKind::Signal { symbol: s, .. }) && s.raw
                == SYM_WRONG_TYPE_ARGUMENT,
        },
{
    let tag = match env.user_ptr_tag(h, v) {
        Ok(t) => t,
        Err(e) => {
            return Err(e);
        },
    };
    let want: String = expected.to_owned();
    if tag.eq(&want) {
        Ok(())
    } else {
        Err(ErrorKind::WrongTypeUserPtr { expected: want })
    }
}

/// Raises the module's custom error with no data, as the sample's exported
/// signalling function does.
pub fn signal_custom(env: &mut Env, h: &mut HostState, custom: &GlobalRef) -> (r: Result<
    (),
    ErrorKind,
>)
    requires
        old(env).inv(*old(h)),
        old(h).wf(),
        old(h).exit == ExitStatus::Return,
        old(h).valid_id(custom.raw),
    ensures
        final(h).wf(),
        final(env).inv(*final(h)),
        final(h).exit == ExitStatus::Return,
        r matches Err(ErrorKind::Signal { symbol: s, data: d }) && {
            &&& s.raw == custom.raw
            &&& s.origin == old(env).env_id
            &&& d.origin == old(env).env_id
            &&& final(h).valid_id(d.raw)
            &&& final(h).list_elems(d.raw).len() == 0
        },
{
    let sym = custom.bind(env);
    let data: Vec<Value> = Vec::new();
    env.signal(h, sym, &data)
}

/// Activates the sample module on its first handle: declares its custom
/// error, whose parent is the bridge's generic native-error symbol, and
/// hands back a rooted reference to the custom error's symbol.
pub fn init(env: &mut Env, h: &mut HostState, core: &CoreSymbols) -> (r: Result<
    GlobalRef,
    ErrorKind,
>)
    requires
        old(env).inv(*old(h)),
        old(h).wf(),
        old(h).exit == ExitStatus::Return,
        core.wf(*old(h)),
    ensures
        final(h).wf(),
        final(env).inv(*final(h)),
        final(h).exit == ExitStatus::Return,
        r matches Ok(g) && {
            &&& final(h).is_symbol(g.raw)
            &&& final(h).symbol_name(g.raw) == "emacs-module-rs-test-error"@
            &&& final(h).error_defined(g.raw)
            &&& final(h).defined_errors@.last().0 == g.raw
            &&& final(h).defined_errors@.last().1@ == "Hello"@
            &&& final(h).defined_errors@.last().2@ == seq![core.rust_error.raw]
        },
{
    proof {
        reveal_strlit("emacs-module-rs-test-error");
        reveal_strlit("rust-error");
        assert(!"emacs-module-rs-test-error"@.contains('\0')) by {
            assert forall|k: int|
                0 <= k < "emacs-module-rs-test-error"@.len()
                    implies "emacs-module-rs-test-error"@[k] != '\0' by {}
        }
        assert(!"rust-error"@.contains('\0')) by {
            assert forall|k: int| 0 <= k < "rust-error"@.len() implies "rust-error"@[k]
                != '\0' by {}
        }
    }
    let name = match env.intern(h, "emacs-module-rs-test-error") {
        Ok(v) => v,
        Err(e) => {
            return Err(e);
        },
    };
    let parent = match env.intern(h, "rust-error") {
        Ok(v) => v,
        Err(e) => {
            return Err(e);
        },
    };
    proof {
        if parent.raw != core.rust_error.raw {
            assert(h.values@[parent.raw as int] is Symbol && h.values@[core.rust_error.raw
                as int] is Symbol);
            assert(h.values@[parent.raw as int]->Symbol_name@ != h.values@[core.rust_error.raw
                as int]->Symbol_name@);
            assert(false);
        }
        assert(h.error_defined(parent.raw));
    }
    let parents = vec![parent];
    proof {
        assert(crate::env::raws_of(parents@) =~= seq![parent.raw]);
        assert(h.all_errors_defined(crate::env::raws_of(parents@)));
    }
    let custom = match env.define_error(h, name, "Hello", &parents) {
        Ok(v) => v,
        Err(e) => {
            return Err(e);
        },
    };
    let ghost hg = *h;
    let g = GlobalRef::new(h, custom);
    proof {
        env.lemma_inv_refs_push(hg, *h, custom.raw);
    }
    Ok(g)
}

} // verus!
