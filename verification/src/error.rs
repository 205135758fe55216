//! The closed error taxonomy and the three boundary translators.
//!
//! Three failure models meet at the boundary: the host's non-local exits
//! (signals and throws), native result-based errors, and native unwinds.
//! They cross only through the translators here: [`Env::handle_exit`]
//! (inbound), [`Env::maybe_exit`] (outbound) and [`Env::handle_panic`]
//! (unwind outbound).  Host-originated errors round-trip through the
//! taxonomy without reinterpretation: the identifiers captured inbound are
//! the ones re-raised outbound, which [`lemma_exit_round_trip`] states
//! exactly.

use vstd::prelude::*;
use vstd::string::StrSliceExecFns;
use vstd::string::StringExecFns;

use crate::env::{raws_of, rooted_one, Env, GlobalRef, Value};
use crate::host::{ExitStatus, HostState, ValueData, NIL, SYM_ERROR, SYM_WRONG_TYPE_ARGUMENT};

verus! {

/// An opaque value captured at the moment a host exit was detected.  It is
/// valid for reinterpretation only against the handle that captured it,
/// whose identity it records; [`TempValue::value`] checks that statically.
#[derive(Clone, Copy, Debug, PartialEq, Eq, Structural)]
pub struct TempValue {
    /// Identifier the host issued.
    pub raw: u64,
    /// Identity of the handle the exit was captured through.
    pub origin: u64,
}

impl TempValue {
    /// Reinterprets the captured value against its originating handle,
    /// rooting it like any other value obtained through the handle.
    pub fn value(&self, env: &mut Env, h: &mut HostState) -> (v: Value)
        requires
            self.origin == old(env).env_id,
            old(env).inv(*old(h)),
            old(h).wf(),
            old(h).exit == ExitStatus::Return,
            old(h).valid_id(self.raw),
        ensures
            final(h).wf(),
            final(env).inv(*final(h)),
            final(env).env_id == old(env).env_id,
            final(env).rooting() == old(env).rooting(),
            final(h).exit == ExitStatus::Return,
            final(h).values@ == old(h).values@,
            final(h).defined_errors@ == old(h).defined_errors@,
            final(h).features@ == old(h).features@,
            final(h).messages@ == old(h).messages@,
            v.raw == self.raw,
            v.env_id == old(env).env_id,
            !old(env).rooting() ==> *final(env) == *old(env) && final(h).refs@ == old(h).refs@,
            old(env).rooting() ==> final(h).refs@ == old(h).refs@.push(self.raw),
    {
        let raw = env.root(h, self.raw);
        Value { raw, env_id: env.raw() }
    }
}

/// The closed taxonomy of native errors.  `Signal` and `Throw` carry opaque
/// values captured from a host exit and round-trip back to the host
/// unchanged; the other variants originate natively and surface to the host
/// under a declared error symbol.
#[derive(Clone, Debug, PartialEq)]
pub enum ErrorKind {
    /// An error signalled by host code, captured inbound.
    Signal { symbol: TempValue, data: TempValue },
    /// A non-local throw by host code, captured inbound.
    Throw { tag: TempValue, value: TempValue },
    /// The given value does not wrap a native pointer of the expected type.
    WrongTypeUserPtr { expected: String },
    /// Any other native error, reduced to its rendered description.
    Other { message: String },
}

/// Outcome of a caught native unwind, as the unverified catch shim hands it
/// over: the text payload if the unwind carried one, a previously raised
/// native error being re-thrown through the unwind machinery, or a debug
/// rendering of whatever else was carried.
#[derive(Clone, Debug, PartialEq)]
pub enum PanicPayload {
    /// The unwind carried a plain text payload.
    Text { message: String },
    /// The unwind carried a native error to be re-raised unchanged.
    Known { error: ErrorKind },
    /// The unwind carried something else; only its rendering remains.
    Opaque { rendered: String },
}

/// The three error symbols the bridge declares before any user-declared
/// one, kept as process-wide rooted references.
#[derive(Clone, Copy, Debug, PartialEq, Eq, Structural)]
pub struct CoreSymbols {
    /// Root symbol for generic native errors.
    pub rust_error: GlobalRef,
    /// Symbol for native panics, distinguishable from ordinary errors.
    pub rust_panic: GlobalRef,
    /// Symbol for wrong native pointer types, compatible with the host's
    /// own wrong-type-argument hierarchy.
    pub rust_wrong_type_user_ptr: GlobalRef,
}

impl CoreSymbols {
    /// The three symbols exist, carry their conventional names, and are
    /// declared error symbols.
    pub open spec fn wf(self, h: HostState) -> bool {
        &&& h.is_symbol(self.rust_error.raw)
        &&& h.symbol_name(self.rust_error.raw) == "rust-error"@
        &&& h.error_defined(self.rust_error.raw)
        &&& h.is_symbol(self.rust_panic.raw)
        &&& h.symbol_name(self.rust_panic.raw) == "rust-panic"@
        &&& h.error_defined(self.rust_panic.raw)
        &&& h.is_symbol(self.rust_wrong_type_user_ptr.raw)
        &&& h.symbol_name(self.rust_wrong_type_user_ptr.raw) == "rust-wrong-type-user-ptr"@
        &&& h.error_defined(self.rust_wrong_type_user_ptr.raw)
    }
}

/// What the inbound translator makes of an exit status: nothing for a
/// normal return, a native error capturing the two carried identifiers for
/// a pending signal or throw.
pub open spec fn capture_exit(exit: ExitStatus, origin: u64) -> Option<ErrorKind> {
    match exit {
        ExitStatus::Return => Option::None,
        ExitStatus::Signal { symbol, data } => Option::Some(
            ErrorKind::Signal {
                symbol: TempValue { raw: symbol, origin },
                data: TempValue { raw: data, origin },
            },
        ),
        ExitStatus::Throw { tag, value } => Option::Some(
            ErrorKind::Throw {
                tag: TempValue { raw: tag, origin },
                value: TempValue { raw: value, origin },
            },
        ),
    }
}

/// The exit status the outbound translator re-raises for a host-originated
/// error.
pub open spec fn reraise_exit(e: ErrorKind) -> ExitStatus
    recommends
        e is Signal || e is Throw,
{
    match e {
        ErrorKind::Signal { symbol, data } => ExitStatus::Signal {
            symbol: symbol.raw,
            data: data.raw,
        },
        ErrorKind::Throw { tag, value } => ExitStatus::Throw { tag: tag.raw, value: value.raw },
        _ => ExitStatus::Return,
    }
}

/// Round-trip: a pending host exit captured by the inbound translator and
/// re-raised by the outbound translator reproduces the same status with the
/// same two opaque identifiers — not a re-wrapped equivalent.
pub proof fn lemma_exit_round_trip(exit: ExitStatus, origin: u64)
    requires
        exit != ExitStatus::Return,
    ensures
        capture_exit(exit, origin) matches Some(e) && reraise_exit(e) == exit,
{
}

/// The message text the wrong-type error surfaces with.
pub open spec fn wrong_type_message(expected: Seq<char>) -> Seq<char> {
    "expected: "@ + expected
}

/// The host state after a native error was raised as a signal carrying a
/// one-element data list holding the message: the heap grew by the message
/// string and the list cell, and the signal is pending with exactly those.
pub open spec fn signaled_message(
    pre: HostState,
    post: HostState,
    sym: u64,
    message: Seq<char>,
) -> bool {
    let m = pre.values@.len() as u64;
    let d = (pre.values@.len() + 1) as u64;
    &&& post.values@.len() == pre.values@.len() + 2
    &&& post.values@.subrange(0, pre.values@.len() as int) == pre.values@
    &&& (post.values@[m as int] matches ValueData::Str { text } && text@ == message)
    &&& post.values@[d as int] == (ValueData::Cons { car: m, cdr: NIL })
    &&& post.exit == (ExitStatus::Signal { symbol: sym, data: d })
    &&& post.defined_errors@ == pre.defined_errors@
    &&& post.features@ == pre.features@
    &&& post.messages@ == pre.messages@
}

/// How raising a message signal affects the rooting state: the message
/// string and the list cell are rooted like any other created value.
pub open spec fn rooted_pair(env1: Env, env2: Env, h1: HostState, h2: HostState) -> bool {
    let m = h1.values@.len() as u64;
    let d = (h1.values@.len() + 1) as u64;
    if env1.rooting() {
        &&& h2.refs@ == h1.refs@.push(m).push(d)
        &&& (env2.protected matches Some(r2) && env1.protected matches Some(r1) && r2@ == r1@.push(
            m,
        ).push(d))
        &&& env2.env_id == env1.env_id
    } else {
        &&& env2 == env1
        &&& h2.refs@ == h1.refs@
    }
}

/// A host-originated error may only be reinterpreted against the handle
/// that captured it, and its identifiers must still be issued.
pub open spec fn error_valid(env: Env, h: HostState, e: ErrorKind) -> bool {
    match e {
        ErrorKind::Signal { symbol, data } => {
            &&& symbol.origin == env.env_id
            &&& data.origin == env.env_id
            &&& h.valid_id(symbol.raw)
            &&& h.valid_id(data.raw)
        },
        ErrorKind::Throw { tag, value } => {
            &&& tag.origin == env.env_id
            &&& value.origin == env.env_id
            &&& h.valid_id(tag.raw)
            &&& h.valid_id(value.raw)
        },
        _ => true,
    }
}

/// What the outbound translator does for each error variant: re-raise
/// host-originated errors with their very identifiers, and surface native
/// ones as a signal under the matching declared symbol with their message.
pub open spec fn outbound_post(
    env1: Env,
    env2: Env,
    h1: HostState,
    h2: HostState,
    core: CoreSymbols,
    e: ErrorKind,
    r: u64,
) -> bool {
    match e {
        ErrorKind::Signal { symbol, .. } => {
            &&& HostState::same_heap(h1, h2)
            &&& h2.exit == reraise_exit(e)
            &&& env2 == env1
            &&& r == symbol.raw
        },
        ErrorKind::Throw { tag, .. } => {
            &&& HostState::same_heap(h1, h2)
            &&& h2.exit == reraise_exit(e)
            &&& env2 == env1
            &&& r == tag.raw
        },
        ErrorKind::WrongTypeUserPtr { expected } => {
            &&& signaled_message(h1, h2, core.rust_wrong_type_user_ptr.raw, wrong_type_message(expected@))
            &&& rooted_pair(env1, env2, h1, h2)
            &&& r == core.rust_wrong_type_user_ptr.raw
        },
        ErrorKind::Other { message } => {
            &&& signaled_message(h1, h2, core.rust_error.raw, message@)
            &&& rooted_pair(env1, env2, h1, h2)
            &&& r == core.rust_error.raw
        },
    }
}

/// What the unwind translator does for each payload: re-raise a carried
/// native error unchanged, and surface anything else as a native-panic
/// signal carrying the extracted text.
pub open spec fn panic_post(
    env1: Env,
    env2: Env,
    h1: HostState,
    h2: HostState,
    core: CoreSymbols,
    p: PanicPayload,
    r: u64,
) -> bool {
    match p {
        PanicPayload::Text { message } => {
            &&& signaled_message(h1, h2, core.rust_panic.raw, message@)
            &&& rooted_pair(env1, env2, h1, h2)
            &&& r == core.rust_panic.raw
        },
        PanicPayload::Known { error } => outbound_post(env1, env2, h1, h2, core, error, r),
        PanicPayload::Opaque { rendered } => {
            &&& signaled_message(h1, h2, core.rust_panic.raw, rendered@)
            &&& rooted_pair(env1, env2, h1, h2)
            &&& r == core.rust_panic.raw
        },
    }
}

impl Env {
    /// Inbound translator: after any call through the handle, inspect the
    /// exit status.  A normal return passes the call's result through
    /// unchanged; a pending signal or throw is cleared — consumed, so it
    /// cannot fire twice — and captured into a native error.  A fresh check
    /// right after always reads a normal return.
    ///
    /// The host model's status is well-formed by construction; a raw status
    /// outside the protocol is a fatal condition the unverified rim detects
    /// with [`crate::host::decode_exit`] and aborts on, never absorbing it.
    pub fn handle_exit<T>(&self, h: &mut HostState, result: T) -> (r: Result<T, ErrorKind>)
        requires
            old(h).wf(),
        ensures
            final(h).wf(),
            HostState::same_heap(*old(h), *final(h)),
            final(h).exit == ExitStatus::Return,
            capture_exit(old(h).exit, self.env_id) is None ==> r == Result::<T, ErrorKind>::Ok(
                result,
            ),
            capture_exit(old(h).exit, self.env_id) matches Some(e) ==> r == Result::<
                T,
                ErrorKind,
            >::Err(e),
    {
        let status = h.non_local_exit_get();
        match status {
            ExitStatus::Return => Ok(result),
            ExitStatus::Signal { symbol, data } => {
                h.non_local_exit_clear();
                Err(
                    ErrorKind::Signal {
                        symbol: TempValue { raw: symbol, origin: self.env_id },
                        data: TempValue { raw: data, origin: self.env_id },
                    },
                )
            },
            ExitStatus::Throw { tag, value } => {
                h.non_local_exit_clear();
                Err(
                    ErrorKind::Throw {
                        tag: TempValue { raw: tag, origin: self.env_id },
                        value: TempValue { raw: value, origin: self.env_id },
                    },
                )
            },
        }
    }

    /// Raises a signal under a declared symbol, carrying a one-element data
    /// list that holds the message.  Cannot fail here: the host model's
    /// string and list constructors succeed whenever no exit is pending, so
    /// the fatal raising-failed path of the boundary has no state left to
    /// reach.
    fn signal_internal(&mut self, h: &mut HostState, symbol: &GlobalRef, message: &str) -> (r:
        u64)
        requires
            old(self).inv(*old(h)),
            old(h).wf(),
            old(h).exit == ExitStatus::Return,
            old(h).is_symbol(symbol.raw),
        ensures
            final(h).wf(),
            final(self).inv(*final(h)),
            final(self).rooting() == old(self).rooting(),
            signaled_message(*old(h), *final(h), symbol.raw, message@),
            rooted_pair(*old(self), *final(self), *old(h), *final(h)),
            r == symbol.raw,
    {
        let ghost h0 = *h;
        let m = h.make_string(message);
        let m = self.root(h, m);
        let ghost h1 = *h;
        let d = h.cons_cell(m, NIL);
        let d = self.root(h, d);
        proof {
            let n = h0.values@.len() as int;
            assert forall|k: int| 0 <= k < n implies h.values@[k] == h0.values@[k] by {
                assert(h1.values@[k] == h1.values@.drop_last()[k]);
                assert(h.values@[k] == h.values@.drop_last()[k]);
            }
            assert(h.values@.subrange(0, n) =~= h0.values@);
            assert(h.values@[n] == h1.values@.last());
            if old(self).rooting() {
                assert(h.refs@ =~= h0.refs@.push(m).push(d));
                assert(self.protected.unwrap()@ =~= old(self).protected.unwrap()@.push(m).push(
                    d,
                ));
            }
        }
        h.non_local_exit_signal(symbol.raw, d)
    }

    /// Re-raises a native error to the host: a captured signal or throw
    /// goes back out with its very identifiers; a wrong-type error is
    /// signalled under the wrong-type symbol with its descriptive message;
    /// any other native error is signalled under the generic native-error
    /// symbol with its rendered description.
    fn handle_known(&mut self, h: &mut HostState, core: &CoreSymbols, err: &ErrorKind) -> (r: u64)
        requires
            old(self).inv(*old(h)),
            old(h).wf(),
            old(h).exit == ExitStatus::Return,
            core.wf(*old(h)),
            error_valid(*old(self), *old(h), *err),
        ensures
            final(h).wf(),
            final(self).inv(*final(h)),
            outbound_post(*old(self), *final(self), *old(h), *final(h), *core, *err, r),
    {
        match err {
            ErrorKind::Signal { symbol, data } => {
                let r = h.non_local_exit_signal(symbol.raw, data.raw);
                proof {
                    assert(self.inv(*h));
                }
                r
            },
            ErrorKind::Throw { tag, value } => {
                let r = h.non_local_exit_throw(tag.raw, value.raw);
                proof {
                    assert(self.inv(*h));
                }
                r
            },
            ErrorKind::WrongTypeUserPtr { expected } => {
                let msg = String::from_str("expected: ").concat(expected.as_str());
                self.signal_internal(h, &core.rust_wrong_type_user_ptr, msg.as_str())
            },
            ErrorKind::Other { message } => {
                let msg = message.clone();
                self.signal_internal(h, &core.rust_error, msg.as_str())
            },
        }
    }

    /// Outbound translator: turns the result of exported native logic into
    /// what the host receives.  Success passes the raw value through
    /// unchanged; failure re-raises or signals per the error variant.
    pub fn maybe_exit(&mut self, h: &mut HostState, core: &CoreSymbols, result: Result<
        Value,
        ErrorKind,
    >) -> (r: u64)
        requires
            old(self).inv(*old(h)),
            old(h).wf(),
            old(h).exit == ExitStatus::Return,
            core.wf(*old(h)),
            result matches Ok(v) ==> old(self).issued(v) && old(h).valid_id(v.raw),
            result matches Err(e) ==> error_valid(*old(self), *old(h), e),
        ensures
            final(h).wf(),
            final(self).inv(*final(h)),
            result matches Ok(v) ==> HostState::unchanged(*old(h), *final(h)) && *final(self)
                == *old(self) && r == v.raw,
            result matches Err(e) ==> outbound_post(
                *old(self),
                *final(self),
                *old(h),
                *final(h),
                *core,
                e,
                r,
            ),
    {
        match result {
            Ok(v) => v.raw,
            Err(e) => self.handle_known(h, core, &e),
        }
    }

    /// Unwind translator: turns the outcome of a caught native unwind into
    /// what the host receives, so no unwind ever continues into host-owned
    /// stack frames.  A re-thrown native error is re-raised unchanged; any
    /// other payload is signalled under the native-panic symbol with its
    /// extracted text.  Verified code cannot unwind, so the catch shim at
    /// the boundary is the only producer of the payload.
    pub fn handle_panic(&mut self, h: &mut HostState, core: &CoreSymbols, outcome: Result<
        Value,
        PanicPayload,
    >) -> (r: u64)
        requires
            old(self).inv(*old(h)),
            old(h).wf(),
            old(h).exit == ExitStatus::Return,
            core.wf(*old(h)),
            outcome matches Ok(v) ==> old(self).issued(v) && old(h).valid_id(v.raw),
            outcome matches Err(PanicPayload::Known { error }) ==> error_valid(
                *old(self),
                *old(h),
                error,
            ),
        ensures
            final(h).wf(),
            final(self).inv(*final(h)),
            outcome matches Ok(v) ==> HostState::unchanged(*old(h), *final(h)) && *final(self)
                == *old(self) && r == v.raw,
            outcome matches Err(p) ==> panic_post(
                *old(self),
                *final(self),
                *old(h),
                *final(h),
                *core,
                p,
                r,
            ),
    {
        match outcome {
            Ok(v) => v.raw,
            Err(PanicPayload::Text { message }) => {
                self.signal_internal(h, &core.rust_panic, message.as_str())
            },
            Err(PanicPayload::Known { error }) => self.handle_known(h, core, &error),
            Err(PanicPayload::Opaque { rendered }) => {
                self.signal_internal(h, &core.rust_panic, rendered.as_str())
            },
        }
    }

    /// Raises an error from native code under the given symbol: the data
    /// values are packed into a list, and the pair is returned as a native
    /// `Signal` error for the outbound translator to re-raise.
    pub fn signal<T>(&mut self, h: &mut HostState, symbol: Value, data: &Vec<Value>) -> (r:
        Result<T, ErrorKind>)
        requires
            old(self).inv(*old(h)),
            old(h).wf(),
            old(h).exit == ExitStatus::Return,
            old(self).issued(symbol),
            old(h).valid_id(symbol.raw),
            forall|k: int|
                0 <= k < data@.len() ==> old(self).issued(#[trigger] data@[k]) && old(
                    h,
                ).valid_id(data@[k].raw),
        ensures
            final(h).wf(),
            final(self).inv(*final(h)),
            final(h).exit == ExitStatus::Return,
            final(h).values@.len() >= old(h).values@.len(),
            final(h).values@.subrange(0, old(h).values@.len() as int) == old(h).values@,
            final(h).defined_errors@ == old(h).defined_errors@,
            final(h).features@ == old(h).features@,
            final(h).messages@ == old(h).messages@,
            final(self).env_id == old(self).env_id,
            r matches Err(ErrorKind::Signal { symbol: s, data: d }) && {
                &&& s.raw == symbol.raw
                &&& s.origin == old(self).env_id
                &&& d.origin == old(self).env_id
                &&& final(h).valid_id(d.raw)
                &&& final(h).list_elems(d.raw) == raws_of(data@)
            },
    {
        match self.list(h, data) {
            Ok(lv) => Err(
                ErrorKind::Signal {
                    symbol: TempValue { raw: symbol.raw, origin: self.raw() },
                    data: TempValue { raw: lv.raw, origin: self.raw() },
                },
            ),
            Err(e) => Err(e),
        }
    }

    /// Declares a new error symbol with a message and parent error symbols,
    /// mirroring the host's own error declaration.  Succeeds exactly when
    /// every parent is already a declared error symbol; otherwise the
    /// host's error signal comes back as the captured native error.
    pub fn define_error(&mut self, h: &mut HostState, name: Value, message: &str, parents: &Vec<
        Value,
    >) -> (r: Result<Value, ErrorKind>)
        requires
            old(self).inv(*old(h)),
            old(h).wf(),
            old(h).exit == ExitStatus::Return,
            old(self).issued(name),
            old(h).is_symbol(name.raw),
            forall|k: int|
                0 <= k < parents@.len() ==> old(self).issued(#[trigger] parents@[k]) && old(
                    h,
                ).is_symbol(parents@[k].raw),
        ensures
            final(h).wf(),
            final(self).inv(*final(h)),
            final(h).exit == ExitStatus::Return,
            final(h).values@ == old(h).values@,
            final(h).features@ == old(h).features@,
            final(h).messages@ == old(h).messages@,
            final(self).env_id == old(self).env_id,
            final(self).rooting() == old(self).rooting(),
            old(h).all_errors_defined(raws_of(parents@)) ==> (r matches Ok(v) && {
                &&& v.raw == name.raw
                &&& v.env_id == old(self).env_id
                &&& final(h).defined_errors@.len() == old(h).defined_errors@.len() + 1
                &&& final(h).defined_errors@.drop_last() == old(h).defined_errors@
                &&& final(h).defined_errors@.last().0 == name.raw
                &&& final(h).defined_errors@.last().1@ == message@
                &&& final(h).defined_errors@.last().2@ == raws_of(parents@)
                &&& rooted_one(*old(self), *final(self), old(h).refs@, final(h).refs@, v.raw)
            }),
            !old(h).all_errors_defined(raws_of(parents@)) ==> (r matches Err(
                ErrorKind::Signal { symbol: es, data: ed },
            ) && {
                &&& es.raw == SYM_ERROR
                &&& ed.raw == NIL
                &&& es.origin == old(self).env_id
                &&& ed.origin == old(self).env_id
            }) && final(h).defined_errors@ == old(h).defined_errors@ && final(h).refs@ == old(
                h,
            ).refs@ && *final(self) == *old(self),
    {
        let mut praw: Vec<u64> = Vec::new();
        let n = parents.len();
        let mut i: usize = 0;
        while i < n
            invariant
                praw@.len() == i,
                i <= n,
                n == parents@.len(),
                forall|k: int| 0 <= k < i ==> praw@[k] == parents@[k].raw,
                forall|k: int|
                    0 <= k < parents@.len() ==> old(self).issued(#[trigger] parents@[k]) && old(
                        h,
                    ).is_symbol(parents@[k].raw),
            decreases n - i,
        {
            praw.push(vstd::std_specs::vec::vec_index(parents, i).raw);
            i = i + 1;
        }
        proof {
            assert(praw@ =~= raws_of(parents@));
        }
        let raw = h.define_error_symbol(name.raw, message, &praw);
        match self.handle_exit(h, raw) {
            Ok(raw2) => {
                let rooted = self.root(h, raw2);
                Ok(Value { raw: rooted, env_id: self.raw() })
            },
            Err(e) => Err(e),
        }
    }

    /// Declares the bridge's built-in error symbols, ahead of any
    /// user-declared one: the native-panic root, the generic native-error
    /// root, and the wrong-type symbol whose parents make it compatible
    /// with the host's own wrong-type-argument hierarchy.  The parents are
    /// the host's predeclared error symbols, so this cannot fail.
    pub fn define_core_errors(&mut self, h: &mut HostState) -> (r: Result<
        CoreSymbols,
        ErrorKind,
    >)
        requires
            old(self).inv(*old(h)),
            old(h).wf(),
            old(h).exit == ExitStatus::Return,
            old(h).error_defined(SYM_ERROR),
            old(h).error_defined(SYM_WRONG_TYPE_ARGUMENT),
        ensures
            final(h).wf(),
            final(self).inv(*final(h)),
            final(h).exit == ExitStatus::Return,
            final(h).values@.len() >= old(h).values@.len(),
            final(h).values@.subrange(0, old(h).values@.len() as int) == old(h).values@,
            final(h).features@ == old(h).features@,
            final(h).messages@ == old(h).messages@,
            final(self).env_id == old(self).env_id,
            r matches Ok(core) && {
                &&& core.wf(*final(h))
                &&& final(h).defined_errors@.len() == old(h).defined_errors@.len() + 3
                &&& final(h).defined_errors@.subrange(0, old(h).defined_errors@.len() as int)
                    == old(h).defined_errors@
                &&& final(h).defined_errors@[old(h).defined_errors@.len() as int].0
                    == core.rust_panic.raw
                &&& final(h).defined_errors@[old(h).defined_errors@.len() as int].1@
                    == "Rust panic"@
                &&& final(h).defined_errors@[old(h).defined_errors@.len() as int].2@
                    == seq![SYM_ERROR]
                &&& final(h).defined_errors@[old(h).defined_errors@.len() as int + 1].0
                    == core.rust_error.raw
                &&& final(h).defined_errors@[old(h).defined_errors@.len() as int + 1].1@
                    == "Rust error"@
                &&& final(h).defined_errors@[old(h).defined_errors@.len() as int + 1].2@
                    == seq![SYM_ERROR]
                &&& final(h).defined_errors@[old(h).defined_errors@.len() as int + 2].0
                    == core.rust_wrong_type_user_ptr.raw
                &&& final(h).defined_errors@[old(h).defined_errors@.len() as int + 2].1@
                    == "Wrong type user-ptr"@
                &&& final(h).defined_errors@[old(h).defined_errors@.len() as int + 2].2@
                    == seq![core.rust_error.raw, SYM_WRONG_TYPE_ARGUMENT]
            },
    {
        proof {
            reveal_strlit("rust-panic");
            reveal_strlit("rust-error");
            reveal_strlit("rust-wrong-type-user-ptr");
            assert(!"rust-panic"@.contains('\0')) by {
                assert forall|k: int| 0 <= k < "rust-panic"@.len() implies "rust-panic"@[k]
                    != '\0' by {}
            }
            assert(!"rust-error"@.contains('\0')) by {
                assert forall|k: int| 0 <= k < "rust-error"@.len() implies "rust-error"@[k]
                    != '\0' by {}
            }
            assert(!"rust-wrong-type-user-ptr"@.contains('\0')) by {
                assert forall|k: int|
                    0 <= k < "rust-wrong-type-user-ptr"@.len()
                        implies "rust-wrong-type-user-ptr"@[k] != '\0' by {}
            }
        }
        let parent_error = Value { raw: SYM_ERROR, env_id: self.raw() };
        let ghost h0 = *h;
        let rust_panic_sym = match self.intern(h, "rust-panic") {
            Ok(v) => v,
            Err(e) => {
                return Err(e);
            },
        };
        let mut parents_err: Vec<Value> = Vec::new();
        parents_err.push(parent_error);
        proof {
            assert(raws_of(parents_err@) =~= seq![SYM_ERROR]);
            assert(h.all_errors_defined(raws_of(parents_err@)));
        }
        let ghost h1 = *h;
        let _ = match self.define_error(h, rust_panic_sym, "Rust panic", &parents_err) {
            Ok(v) => v,
            Err(e) => {
                return Err(e);
            },
        };
        let ghost h2 = *h;
        let rust_error_sym = match self.intern(h, "rust-error") {
            Ok(v) => v,
            Err(e) => {
                return Err(e);
            },
        };
        proof {
            assert(h.all_errors_defined(raws_of(parents_err@)));
        }
        let ghost h3 = *h;
        let _ = match self.define_error(h, rust_error_sym, "Rust error", &parents_err) {
            Ok(v) => v,
            Err(e) => {
                return Err(e);
            },
        };
        let ghost h4 = *h;
        let wta = Value { raw: SYM_WRONG_TYPE_ARGUMENT, env_id: self.raw() };
        let mut parents_wt: Vec<Value> = Vec::new();
        parents_wt.push(rust_error_sym);
        parents_wt.push(wta);
        let rust_wt_sym = match self.intern(h, "rust-wrong-type-user-ptr") {
            Ok(v) => v,
            Err(e) => {
                return Err(e);
            },
        };
        proof {
            assert(raws_of(parents_wt@) =~= seq![rust_error_sym.raw, SYM_WRONG_TYPE_ARGUMENT]);
            assert(h4.defined_errors@.last().0 == rust_error_sym.raw);
            assert(h.defined_errors@[h.defined_errors@.len() - 1].0 == rust_error_sym.raw);
            assert(h.error_defined(rust_error_sym.raw));
            assert(h.error_defined(SYM_WRONG_TYPE_ARGUMENT));
            assert(h.all_errors_defined(raws_of(parents_wt@)));
        }
        let _ = match self.define_error(h, rust_wt_sym, "Wrong type user-ptr", &parents_wt) {
            Ok(v) => v,
            Err(e) => {
                return Err(e);
            },
        };
        let ghost h5 = *h;
        let g_panic = GlobalRef::new(h, rust_panic_sym);
        proof {
            self.lemma_inv_refs_push(h5, *h, rust_panic_sym.raw);
        }
        let ghost h6 = *h;
        let g_error = GlobalRef::new(h, rust_error_sym);
        proof {
            self.lemma_inv_refs_push(h6, *h, rust_error_sym.raw);
        }
        let ghost h7 = *h;
        let g_wt = GlobalRef::new(h, rust_wt_sym);
        proof {
            self.lemma_inv_refs_push(h7, *h, rust_wt_sym.raw);
        }
        let core = CoreSymbols {
            rust_error: g_error,
            rust_panic: g_panic,
            rust_wrong_type_user_ptr: g_wt,
        };
        proof {
            let n0 = old(h).defined_errors@.len() as int;
            assert(h.defined_errors@.subrange(0, n0) =~= old(h).defined_errors@);
            assert(h.values@.subrange(0, h0.values@.len() as int) =~= h0.values@);
            assert(core.wf(*h));
        }
        Ok(core)
    }
}

/// Host-flavoured extension for results whose failure is already rendered
/// as text: the failure becomes a signal under a chosen symbol, with the
/// text as the first element of the signal data; success passes through
/// unchanged.
pub trait ResultExt<T>: Sized {
    /// Converts the failure, if any, into a `Signal` native error under
    /// `symbol`, whose data list starts with the rendered text.
    fn or_signal(self, env: &mut Env, h: &mut HostState, symbol: Value) -> (r: Result<
        T,
        ErrorKind,
    >)
        requires
            old(env).inv(*old(h)),
            old(h).wf(),
            old(h).exit == ExitStatus::Return,
            old(env).issued(symbol),
            old(h).valid_id(symbol.raw),
        ensures
            final(h).wf(),
            final(env).inv(*final(h)),
            final(h).exit == ExitStatus::Return,
            final(h).defined_errors@ == old(h).defined_errors@,
            final(h).features@ == old(h).features@,
            final(h).messages@ == old(h).messages@,
    ;
}

impl<T> ResultExt<T> for Result<T, String> {
    fn or_signal(self, env: &mut Env, h: &mut HostState, symbol: Value) -> (r: Result<
        T,
        ErrorKind,
    >)
        ensures
            self matches Ok(t) ==> r == Result::<T, ErrorKind>::Ok(t) && *final(env) == *old(env)
                && *final(h) == *old(h),
            self matches Err(msg) ==> (r matches Err(ErrorKind::Signal { symbol: s, data: d })
                && {
                &&& s.raw == symbol.raw
                &&& s.origin == old(env).env_id
                &&& d.origin == old(env).env_id
                &&& final(h).valid_id(d.raw)
                &&& final(h).list_elems(d.raw).len() == 1
                &&& (final(h).values@[final(h).list_elems(d.raw)[0] as int] matches
                    ValueData::Str { text } && text@ == msg@)
            }),
    {
        match self {
            Ok(t) => Ok(t),
            Err(msg) => {
                match env.make_string(h, msg.as_str()) {
                    Ok(mv) => {
                        let data = vec![mv];
                        env.signal(h, symbol, &data)
                    },
                    Err(e) => Err(e),
                }
            },
        }
    }
}

} // verus!
