//! The environment handle and its rooted-value registry.
//!
//! Exactly one handle exists per outermost host call into native code; it is
//! the sole mediator of all boundary calls.  While the host's collector
//! defect is present, every value obtained through the handle is rooted
//! (protected from collection) and recorded in the handle's registry; the
//! registry only grows until teardown, which releases everything in bulk.
//! Teardown may run while a non-local exit is pending, so it saves the
//! status, clears it so the release calls are not short-circuited, releases
//! every rooted value, and then restores the saved status undisturbed.

use vstd::prelude::*;
use vstd::string::StrSliceExecFns;

use crate::error::ErrorKind;
use crate::host::{ExitStatus, HostState, ValueData, NIL};
use crate::latch::BugFixLatch;

verus! {

/// An opaque host value, paired with the identity of the handle it was
/// obtained through.  It is meaningful only against that handle, and only
/// for the duration of the host call the handle belongs to.
#[derive(Clone, Copy, Debug, PartialEq, Eq, Structural)]
pub struct Value {
    /// Identifier the host issued for the value.
    pub raw: u64,
    /// Identity of the issuing handle.
    pub env_id: u64,
}

/// A host value rooted for the rest of the process, usable across handles.
#[derive(Clone, Copy, Debug, PartialEq, Eq, Structural)]
pub struct GlobalRef {
    /// Identifier of the rooted value.
    pub raw: u64,
}

impl GlobalRef {
    /// Views the rooted value through a handle.
    pub fn bind(&self, env: &Env) -> (v: Value)
        ensures
            v.raw == self.raw,
            v.env_id == env.env_id,
    {
        Value { raw: self.raw, env_id: env.env_id }
    }
}

/// The environment handle: owner of the callback-table connection for one
/// host call, and of the registry of values rooted during that call.
#[derive(Debug)]
pub struct Env {
    /// Identity of this handle; values record it when issued.
    pub env_id: u64,
    /// Rooted-value registry.  `None` means the host has the collector
    /// defect fixed and rooting is skipped entirely.
    pub protected: Option<Vec<u64>>,
}

/// Whether handles built against this latch determination root their values.
pub open spec fn rooting_for(latch_value: Option<bool>) -> bool {
    latch_value != Some(true)
}

/// How creating one value affects the rooting state: with rooting active
/// the identifier is appended to the registry and the host holds one more
/// root for it; otherwise neither side changes.
pub open spec fn rooted_one(
    env1: Env,
    env2: Env,
    refs1: Seq<u64>,
    refs2: Seq<u64>,
    raw: u64,
) -> bool {
    if env1.rooting() {
        &&& refs2 == refs1.push(raw)
        &&& (env2.protected matches Some(r2) && env1.protected matches Some(r1) && r2@
            == r1@.push(raw))
        &&& env2.env_id == env1.env_id
    } else {
        &&& env2 == env1
        &&& refs2 == refs1
    }
}

/// The raw identifiers of a sequence of values.
pub open spec fn raws_of(vs: Seq<Value>) -> Seq<u64> {
    vs.map_values(|v: Value| v.raw)
}

/// The message the handle rejects a name containing an interior nul with,
/// before any host call is made.
pub open spec fn nul_error_text() -> Seq<char> {
    "string contains an interior nul byte"@
}

/// Whether the text cannot be handed to the host's symbol table, which
/// takes nul-terminated names.
fn contains_nul(s: &str) -> (b: bool)
    ensures
        b == s@.contains('\0'),
{
    let n = s.unicode_len();
    let mut i: usize = 0;
    while i < n
        invariant
            n == s@.len(),
            i <= n,
            forall|k: int| 0 <= k < i ==> s@[k] != '\0',
        decreases n - i,
    {
        if s.get_char(i) == '\0' {
            proof {
                assert(s@[i as int] == '\0');
            }
            return true;
        }
        i = i + 1;
    }
    proof {
        if s@.contains('\0') {
            let w = choose|w: int| 0 <= w < s@.len() && s@[w] == '\0';
            assert(s@[w] != '\0');
        }
    }
    false
}

impl Env {
    /// Rooting is active for this handle.
    pub open spec fn rooting(self) -> bool {
        self.protected is Some
    }

    /// The value was issued through this handle.
    pub open spec fn issued(self, v: Value) -> bool {
        v.env_id == self.env_id
    }

    /// The handle's registry agrees with the host: every registry entry is
    /// an issued identifier, and the host holds one outstanding root per
    /// entry.
    pub open spec fn inv(self, h: HostState) -> bool {
        match self.protected {
            Option::None => true,
            Option::Some(regs) => {
                &&& regs@.to_multiset().subset_of(h.refs@.to_multiset())
                &&& forall|k: int| 0 <= k < regs@.len() ==> h.valid_id(#[trigger] regs@[k])
            },
        }
    }

    /// Builds the handle for one host call.  Rooting is enabled unless the
    /// latch has determined that the collector defect is fixed; while the
    /// latch is undetermined the defect is assumed present.
    pub fn new(latch: &BugFixLatch, env_id: u64) -> (e: Env)
        ensures
            e.env_id == env_id,
            e.rooting() == rooting_for(latch.value()),
            e.protected matches Some(regs) ==> regs@.len() == 0,
            forall|hh: HostState| #[trigger] e.inv(hh),
    {
        let fixed = match latch.get() {
            Option::Some(b) => b,
            Option::None => false,
        };
        let protected = if fixed {
            Option::None
        } else {
            Option::Some(Vec::new())
        };
        let e = Env { env_id, protected };
        proof {
            assert forall|hh: HostState| #[trigger] e.inv(hh) by {
                e.lemma_fresh_inv(hh);
            }
        }
        e
    }

    /// Builds the handle from the host's runtime entry, which hands out the
    /// environment for the current call.  In this model the runtime is
    /// reduced to the handle identity it issues.
    pub fn from_runtime(latch: &BugFixLatch, runtime_id: u64) -> (e: Env)
        ensures
            e.env_id == runtime_id,
            e.rooting() == rooting_for(latch.value()),
            e.protected matches Some(regs) ==> regs@.len() == 0,
            forall|hh: HostState| #[trigger] e.inv(hh),
    {
        Env::new(latch, runtime_id)
    }

    /// A handle whose registry is empty, or which does not root at all,
    /// agrees with any host state.
    proof fn lemma_fresh_inv(self, h: HostState)
        requires
            match self.protected {
                Option::None => true,
                Option::Some(regs) => regs@.len() == 0,
            },
        ensures
            self.inv(h),
    {
        broadcast use vstd::seq_lib::group_to_multiset_ensures;

        match self.protected {
            Option::None => {},
            Option::Some(regs) => {
                assert(regs@.to_multiset().len() == 0);
                assert forall|x: u64|
                    regs@.to_multiset().count(x) <= h.refs@.to_multiset().count(x) by {
                    vstd::multiset::axiom_count_le_len(regs@.to_multiset(), x);
                }
            },
        }
    }

    /// The handle identity, as the raw connection would be exposed.
    pub fn raw(&self) -> (r: u64)
        ensures
            r == self.env_id,
    {
        self.env_id
    }

    /// Roots a value: asks the host for a new reference and records it in
    /// the registry, so it survives until teardown.  A pass-through when
    /// rooting is inactive.
    pub fn root(&mut self, h: &mut HostState, raw: u64) -> (r: u64)
        requires
            old(self).inv(*old(h)),
            old(h).wf(),
            old(h).exit == ExitStatus::Return,
            old(h).valid_id(raw),
        ensures
            final(h).wf(),
            final(self).inv(*final(h)),
            final(self).env_id == old(self).env_id,
            final(self).rooting() == old(self).rooting(),
            final(h).exit == ExitStatus::Return,
            final(h).values@ == old(h).values@,
            final(h).defined_errors@ == old(h).defined_errors@,
            final(h).features@ == old(h).features@,
            final(h).messages@ == old(h).messages@,
            r == raw,
            !old(self).rooting() ==> *final(self) == *old(self) && final(h).refs@ == old(h).refs@,
            old(self).rooting() ==> final(h).refs@ == old(h).refs@.push(raw) && (final(self).protected matches Some(regs2) && old(self).protected matches Some(regs1) && regs2@
                == regs1@.push(raw)),
    {
        match &mut self.protected {
            Option::None => raw,
            Option::Some(regs) => {
                let r = h.make_global_ref(raw);
                regs.push(raw);
                proof {
                    broadcast use vstd::seq_lib::group_to_multiset_ensures;
                    broadcast use vstd::multiset::group_multiset_axioms;

                    let regs1 = old(self).protected.unwrap()@;
                    let regs2 = self.protected.unwrap()@;
                    assert(regs2.to_multiset() =~= regs1.to_multiset().insert(raw));
                    assert(h.refs@.to_multiset() =~= old(h).refs@.to_multiset().insert(raw));
                    assert forall|x: u64|
                        regs2.to_multiset().count(x) <= h.refs@.to_multiset().count(x) by {
                        assert(regs1.to_multiset().count(x) <= old(h).refs@.to_multiset().count(
                            x,
                        ));
                    }
                }
                r
            },
        }
    }

    /// Tears the handle down at the end of its host call.  If rooting is
    /// active, every registered value is released through this same handle;
    /// because a pending non-local exit would short-circuit the release
    /// calls, the pending status and its carried values are saved, the
    /// status is cleared, the releases run, and the saved status is then
    /// restored undisturbed — a protected-cleanup region.
    pub fn teardown(self, h: &mut HostState)
        requires
            self.inv(*old(h)),
            old(h).wf(),
        ensures
            final(h).wf(),
            final(h).exit == old(h).exit,
            final(h).values@ == old(h).values@,
            final(h).defined_errors@ == old(h).defined_errors@,
            final(h).features@ == old(h).features@,
            final(h).messages@ == old(h).messages@,
            !self.rooting() ==> final(h).refs@ == old(h).refs@,
            self.rooting() ==> final(h).refs@.to_multiset() == old(h).refs@.to_multiset().sub(
                self.protected.unwrap()@.to_multiset(),
            ),
    {
        broadcast use vstd::seq_lib::group_to_multiset_ensures;
        broadcast use vstd::multiset::group_multiset_axioms;

        match self.protected {
            Option::None => {},
            Option::Some(regs) => {
                let status = h.non_local_exit_get();
                if !matches!(status, ExitStatus::Return) {
                    h.non_local_exit_clear();
                }
                let n = regs.len();
                let mut i: usize = 0;
                proof {
                    assert(regs@.subrange(0, 0) =~= Seq::<u64>::empty());
                    assert(regs@.subrange(0, n as int) =~= regs@);
                    assert forall|x: u64|
                        h.refs@.to_multiset().count(x) == old(h).refs@.to_multiset().sub(
                            regs@.subrange(0, 0).to_multiset(),
                        ).count(x) by {
                        assert(regs@.subrange(0, 0).to_multiset().count(x) == 0);
                    }
                    assert(h.refs@.to_multiset() =~= old(h).refs@.to_multiset().sub(
                        regs@.subrange(0, 0).to_multiset(),
                    ));
                }
                while i < n
                    invariant
                        h.wf(),
                        h.exit == ExitStatus::Return,
                        n == regs@.len(),
                        i <= n,
                        h.values@ == old(h).values@,
                        h.defined_errors@ == old(h).defined_errors@,
                        h.features@ == old(h).features@,
                        h.messages@ == old(h).messages@,
                        regs@.subrange(i as int, n as int).to_multiset().subset_of(
                            h.refs@.to_multiset(),
                        ),
                        h.refs@.to_multiset() == old(h).refs@.to_multiset().sub(
                            regs@.subrange(0, i as int).to_multiset(),
                        ),
                    decreases n - i,
                {
                    broadcast use vstd::seq_lib::group_to_multiset_ensures;
                    broadcast use vstd::multiset::group_multiset_axioms;

                    let r = *vstd::std_specs::vec::vec_index(&regs, i);
                    proof {
                        let suffix = regs@.subrange(i as int, n as int);
                        assert(suffix[0] == r);
                        assert(suffix.contains(r));
                        assert(suffix.to_multiset().count(r) > 0);
                        assert(h.refs@.to_multiset().count(r) > 0);
                        assert(h.refs@.contains(r));
                    }
                    let ghost pre = *h;
                    h.free_global_ref(r);
                    proof {
                        let suffix = regs@.subrange(i as int, n as int);
                        let suffix2 = regs@.subrange(i as int + 1, n as int);
                        assert(suffix.drop_first() =~= suffix2);
                        assert(suffix.remove(0) =~= suffix2);
                        assert(suffix.remove(0).to_multiset() == suffix.to_multiset().remove(
                            suffix[0],
                        ));
                        assert forall|x: u64|
                            suffix2.to_multiset().count(x) <= h.refs@.to_multiset().count(x) by {
                            assert(suffix.to_multiset().count(x) <= pre.refs@.to_multiset().count(
                                x,
                            ));
                        }
                        let prefix = regs@.subrange(0, i as int);
                        let prefix2 = regs@.subrange(0, i as int + 1);
                        assert(prefix.push(regs@[i as int]) =~= prefix2);
                        assert(prefix2.to_multiset() == prefix.to_multiset().insert(r));
                        assert forall|x: u64|
                            h.refs@.to_multiset().count(x) == old(h).refs@.to_multiset().sub(
                                prefix2.to_multiset(),
                            ).count(x) by {
                            assert(suffix.to_multiset().count(x) <= pre.refs@.to_multiset().count(
                                x,
                            ));
                            assert(pre.refs@.to_multiset().count(x) == old(h).refs@.to_multiset().sub(prefix.to_multiset()).count(x));
                        }
                        assert(h.refs@.to_multiset() =~= old(h).refs@.to_multiset().sub(
                            prefix2.to_multiset(),
                        ));
                    }
                    i = i + 1;
                }
                proof {
                    assert(regs@.subrange(0, n as int) =~= regs@);
                }
                match status {
                    ExitStatus::Return => {},
                    ExitStatus::Signal { symbol, data } => {
                        h.non_local_exit_signal(symbol, data);
                    },
                    ExitStatus::Throw { tag, value } => {
                        h.non_local_exit_throw(tag, value);
                    },
                }
            },
        }
    }

    /// Interns a symbol by name through the host, after checking that the
    /// name can be handed to the host's string encoding at all.  Interning
    /// one name twice yields the same symbol.
    pub fn intern(&mut self, h: &mut HostState, name: &str) -> (r: Result<Value, ErrorKind>)
        requires
            old(self).inv(*old(h)),
            old(h).wf(),
            old(h).exit == ExitStatus::Return,
        ensures
            final(h).wf(),
            final(self).inv(*final(h)),
            final(h).exit == ExitStatus::Return,
            final(h).defined_errors@ == old(h).defined_errors@,
            final(h).features@ == old(h).features@,
            final(h).messages@ == old(h).messages@,
            name@.contains('\0') ==> (r matches Err(ErrorKind::Other { message }) && message@
                == nul_error_text()) && HostState::unchanged(*old(h), *final(h)) && *final(self)
                == *old(self),
            !name@.contains('\0') ==> (r matches Ok(v) && {
                &&& final(h).is_symbol(v.raw)
                &&& final(h).symbol_name(v.raw) == name@
                &&& v.env_id == old(self).env_id
                &&& rooted_one(*old(self), *final(self), old(h).refs@, final(h).refs@, v.raw)
                &&& (old(h).has_symbol(name@) ==> final(h).values@ == old(h).values@)
                &&& (!old(h).has_symbol(name@) ==> final(h).values@.len() == old(h).values@.len()
                    + 1 && final(h).values@.drop_last() == old(h).values@ && v.raw as int == old(h).values@.len())
            }),
    {
        if contains_nul(name) {
            return Err(
                ErrorKind::Other {
                    message: String::from_str("string contains an interior nul byte"),
                },
            );
        }
        let raw = h.intern_symbol(name);
        match self.handle_exit(h, raw) {
            Ok(raw2) => {
                let rooted = self.root(h, raw2);
                Ok(Value { raw: rooted, env_id: self.raw() })
            },
            Err(e) => Err(e),
        }
    }

    /// Creates a host string value holding the given text.
    pub fn make_string(&mut self, h: &mut HostState, text: &str) -> (r: Result<Value, ErrorKind>)
        requires
            old(self).inv(*old(h)),
            old(h).wf(),
            old(h).exit == ExitStatus::Return,
        ensures
            final(h).wf(),
            final(self).inv(*final(h)),
            final(h).exit == ExitStatus::Return,
            final(h).defined_errors@ == old(h).defined_errors@,
            final(h).features@ == old(h).features@,
            final(h).messages@ == old(h).messages@,
            r matches Ok(v) && {
                &&& final(h).values@.len() == old(h).values@.len() + 1
                &&& final(h).values@.drop_last() == old(h).values@
                &&& (final(h).values@.last() matches ValueData::Str { text: t } && t@ == text@)
                &&& v.raw as int == old(h).values@.len()
                &&& v.env_id == old(self).env_id
                &&& rooted_one(*old(self), *final(self), old(h).refs@, final(h).refs@, v.raw)
            },
    {
        let raw = h.make_string(text);
        match self.handle_exit(h, raw) {
            Ok(raw2) => {
                let rooted = self.root(h, raw2);
                Ok(Value { raw: rooted, env_id: self.raw() })
            },
            Err(e) => Err(e),
        }
    }

    /// Builds a cons cell of two values issued through this handle.
    pub fn cons(&mut self, h: &mut HostState, car: Value, cdr: Value) -> (r: Result<
        Value,
        ErrorKind,
    >)
        requires
            old(self).inv(*old(h)),
            old(h).wf(),
            old(h).exit == ExitStatus::Return,
            old(self).issued(car),
            old(self).issued(cdr),
            old(h).valid_id(car.raw),
            old(h).valid_id(cdr.raw),
        ensures
            final(h).wf(),
            final(self).inv(*final(h)),
            final(h).exit == ExitStatus::Return,
            final(h).defined_errors@ == old(h).defined_errors@,
            final(h).features@ == old(h).features@,
            final(h).messages@ == old(h).messages@,
            r matches Ok(v) && {
                &&& final(h).values@.len() == old(h).values@.len() + 1
                &&& final(h).values@.drop_last() == old(h).values@
                &&& final(h).values@.last() == (ValueData::Cons { car: car.raw, cdr: cdr.raw })
                &&& v.raw as int == old(h).values@.len()
                &&& v.env_id == old(self).env_id
                &&& rooted_one(*old(self), *final(self), old(h).refs@, final(h).refs@, v.raw)
            },
    {
        let raw = h.cons_cell(car.raw, cdr.raw);
        match self.handle_exit(h, raw) {
            Ok(raw2) => {
                let rooted = self.root(h, raw2);
                Ok(Value { raw: rooted, env_id: self.raw() })
            },
            Err(e) => Err(e),
        }
    }

    /// Reports the type of a value issued through this handle, as one of
    /// the host's type symbols.
    pub fn type_of(&mut self, h: &mut HostState, value: Value) -> (r: Result<Value, ErrorKind>)
        requires
            old(self).inv(*old(h)),
            old(h).wf(),
            old(h).exit == ExitStatus::Return,
            old(self).issued(value),
            old(h).valid_id(value.raw),
        ensures
            final(h).wf(),
            final(self).inv(*final(h)),
            final(h).exit == ExitStatus::Return,
            final(h).values@ == old(h).values@,
            final(h).defined_errors@ == old(h).defined_errors@,
            final(h).features@ == old(h).features@,
            final(h).messages@ == old(h).messages@,
            r matches Ok(t) && {
                &&& t.raw == HostState::type_sym_of(old(h).values@[value.raw as int])
                &&& t.env_id == old(self).env_id
                &&& rooted_one(*old(self), *final(self), old(h).refs@, final(h).refs@, t.raw)
            },
    {
        let raw = h.type_of_value(value.raw);
        match self.handle_exit(h, raw) {
            Ok(raw2) => {
                let rooted = self.root(h, raw2);
                Ok(Value { raw: rooted, env_id: self.raw() })
            },
            Err(e) => Err(e),
        }
    }

    /// Identity comparison of two values issued through this handle.  Like
    /// the host's own comparison it answers `false` while an exit is
    /// pending, since the call is then short-circuited.
    pub fn eq(&self, h: &HostState, a: Value, b: Value) -> (r: bool)
        requires
            self.issued(a),
            self.issued(b),
        ensures
            h.exit == ExitStatus::Return ==> r == (a.raw == b.raw),
            h.exit != ExitStatus::Return ==> r == false,
    {
        h.eq_values(a.raw, b.raw)
    }

    /// Whether a value issued through this handle is anything but `nil`.
    /// Answers `false` while an exit is pending, like the host itself.
    pub fn is_not_nil(&self, h: &HostState, value: Value) -> (r: bool)
        requires
            self.issued(value),
        ensures
            h.exit == ExitStatus::Return ==> r == (value.raw != NIL),
            h.exit != ExitStatus::Return ==> r == false,
    {
        h.is_not_nil_value(value.raw)
    }

    /// Releases the most recently rooted value, removing it from the
    /// registry so teardown will not release it again.  A pass-through when
    /// rooting is inactive.
    pub fn free_last_protected(&mut self, h: &mut HostState) -> (r: Result<(), ErrorKind>)
        requires
            old(self).inv(*old(h)),
            old(h).wf(),
            old(h).exit == ExitStatus::Return,
            old(self).protected matches Some(regs) ==> regs@.len() > 0,
        ensures
            final(h).wf(),
            final(self).inv(*final(h)),
            final(h).exit == ExitStatus::Return,
            final(h).values@ == old(h).values@,
            final(h).defined_errors@ == old(h).defined_errors@,
            final(h).features@ == old(h).features@,
            final(h).messages@ == old(h).messages@,
            r == Result::<(), ErrorKind>::Ok(()),
            !old(self).rooting() ==> *final(self) == *old(self) && final(h).refs@ == old(h).refs@,
            old(self).rooting() ==> (final(self).protected matches Some(r2) && old(self).protected matches Some(r1) && r2@ == r1@.drop_last() && final(h).refs@.to_multiset() == old(h).refs@.to_multiset().remove(r1@.last())),
    {
        broadcast use vstd::seq_lib::group_to_multiset_ensures;
        broadcast use vstd::multiset::group_multiset_axioms;

        match &mut self.protected {
            Option::None => Ok(()),
            Option::Some(regs) => {
                let n = regs.len();
                let last = *vstd::std_specs::vec::vec_index(regs, n - 1);
                proof {
                    assert(regs@[n - 1] == last);
                    assert(regs@.contains(last));
                    assert(regs@.to_multiset().count(last) > 0);
                    assert(h.refs@.to_multiset().count(last) > 0);
                    assert(h.refs@.contains(last));
                }
                h.free_global_ref(last);
                regs.pop();
                proof {
                    let r1 = old(self).protected.unwrap()@;
                    let r2 = self.protected.unwrap()@;
                    assert(r2 =~= r1.drop_last());
                    assert(r1.remove(n - 1) =~= r1.drop_last());
                    assert(r2.to_multiset() == r1.to_multiset().remove(last));
                    assert forall|x: u64|
                        r2.to_multiset().count(x) <= h.refs@.to_multiset().count(x) by {
                        assert(r1.to_multiset().count(x) <= old(h).refs@.to_multiset().count(x));
                    }
                }
                Ok(())
            },
        }
    }

    /// Builds a nil-terminated list of the given values, consing from the
    /// end, and returns its head.
    pub fn list(&mut self, h: &mut HostState, args: &Vec<Value>) -> (r: Result<Value, ErrorKind>)
        requires
            old(self).inv(*old(h)),
            old(h).wf(),
            old(h).exit == ExitStatus::Return,
            forall|k: int|
                0 <= k < args@.len() ==> old(self).issued(#[trigger] args@[k]) && old(h).valid_id(
                    args@[k].raw,
                ),
        ensures
            final(h).wf(),
            final(self).inv(*final(h)),
            final(h).exit == ExitStatus::Return,
            final(h).values@.len() >= old(h).values@.len(),
            final(h).values@.subrange(0, old(h).values@.len() as int) == old(h).values@,
            final(h).defined_errors@ == old(h).defined_errors@,
            final(h).features@ == old(h).features@,
            final(h).messages@ == old(h).messages@,
            final(self).env_id == old(self).env_id,
            final(self).rooting() == old(self).rooting(),
            r matches Ok(v) && {
                &&& v.env_id == old(self).env_id
                &&& final(h).valid_id(v.raw)
                &&& final(h).list_elems(v.raw) == raws_of(args@)
                &&& (args@.len() == 0 ==> v.raw == NIL)
            },
    {
        let ghost h0 = *h;
        let mut tail: u64 = NIL;
        let mut j: usize = args.len();
        proof {
            assert(args@.subrange(args@.len() as int, args@.len() as int)
                =~= Seq::<Value>::empty());
            assert(raws_of(args@.subrange(args@.len() as int, args@.len() as int))
                =~= Seq::<u64>::empty());
        }
        while j > 0
            invariant
                self.inv(*h),
                h.wf(),
                h.exit == ExitStatus::Return,
                j <= args@.len(),
                h.values@.len() >= h0.values@.len(),
                h.values@.subrange(0, h0.values@.len() as int) == h0.values@,
                h.defined_errors@ == h0.defined_errors@,
                h.features@ == h0.features@,
                h.messages@ == h0.messages@,
                self.env_id == old(self).env_id,
                self.rooting() == old(self).rooting(),
                h.valid_id(tail),
                h.list_elems(tail) == raws_of(
                    args@.subrange(j as int, args@.len() as int),
                ),
                j == args@.len() ==> tail == NIL,
                forall|k: int|
                    0 <= k < args@.len() ==> old(self).issued(#[trigger] args@[k])
                        && h.valid_id(args@[k].raw),
            decreases j,
        {
            j = j - 1;
            let a = *vstd::std_specs::vec::vec_index(args, j);
            let ghost hpre = *h;
            let ghost tail_pre = tail;
            let c = match self.cons(h, a, Value { raw: tail, env_id: self.raw() }) {
                Ok(c) => c,
                Err(e) => {
                    return Err(e);
                },
            };
            tail = c.raw;
            proof {
                assert(h.values@.subrange(0, h0.values@.len() as int) =~= h0.values@);
                HostState::lemma_list_elems_grow(hpre, *h, tail_pre);
                assert(h.values@[c.raw as int] == (ValueData::Cons {
                    car: a.raw,
                    cdr: tail_pre,
                }));
                assert(h.list_elems(c.raw) =~= seq![a.raw] + h.list_elems(tail_pre));
                assert(raws_of(args@.subrange(j as int, args@.len() as int)) =~= seq![a.raw]
                    + raws_of(args@.subrange(j as int + 1, args@.len() as int)));
            }
        }
        proof {
            assert(args@.subrange(0, args@.len() as int) =~= args@);
        }
        Ok(Value { raw: tail, env_id: self.raw() })
    }

    /// Announces a feature under the given name: interns the name and
    /// records the symbol as provided.
    pub fn provide(&mut self, h: &mut HostState, name: &str) -> (r: Result<Value, ErrorKind>)
        requires
            old(self).inv(*old(h)),
            old(h).wf(),
            old(h).exit == ExitStatus::Return,
        ensures
            final(h).wf(),
            final(self).inv(*final(h)),
            final(h).exit == ExitStatus::Return,
            final(h).defined_errors@ == old(h).defined_errors@,
            final(h).messages@ == old(h).messages@,
            final(h).values@.len() >= old(h).values@.len(),
            final(h).values@.subrange(0, old(h).values@.len() as int) == old(h).values@,
            name@.contains('\0') ==> (r matches Err(ErrorKind::Other { message }) && message@
                == nul_error_text()) && HostState::unchanged(*old(h), *final(h)) && *final(self)
                == *old(self),
            !name@.contains('\0') ==> (r matches Ok(v) && {
                &&& final(h).is_symbol(v.raw)
                &&& final(h).symbol_name(v.raw) == name@
                &&& v.env_id == old(self).env_id
                &&& final(h).features@ == old(h).features@.push(v.raw)
            }),
    {
        let sym = match self.intern(h, name) {
            Ok(sym) => sym,
            Err(e) => {
                return Err(e);
            },
        };
        let raw = h.provide_feature(sym.raw);
        match self.handle_exit(h, raw) {
            Ok(raw2) => {
                let rooted = self.root(h, raw2);
                Ok(Value { raw: rooted, env_id: self.raw() })
            },
            Err(e) => Err(e),
        }
    }

    /// Shows a message to the user: the host logs its text and hands the
    /// text back as a string value.
    pub fn message(&mut self, h: &mut HostState, text: &str) -> (r: Result<Value, ErrorKind>)
        requires
            old(self).inv(*old(h)),
            old(h).wf(),
            old(h).exit == ExitStatus::Return,
        ensures
            final(h).wf(),
            final(self).inv(*final(h)),
            final(h).exit == ExitStatus::Return,
            final(h).defined_errors@ == old(h).defined_errors@,
            final(h).features@ == old(h).features@,
            final(h).values@.len() == old(h).values@.len() + 1,
            final(h).values@.drop_last() == old(h).values@,
            r matches Ok(v) && {
                &&& final(h).messages@.len() == old(h).messages@.len() + 1
                &&& final(h).messages@.drop_last() == old(h).messages@
                &&& final(h).messages@.last()@ == text@
                &&& (final(h).values@[v.raw as int] matches ValueData::Str { text: t } && t@
                    == text@)
                &&& v.raw as int == old(h).values@.len()
                &&& v.env_id == old(self).env_id
                &&& final(h).valid_id(v.raw)
            },
    {
        let raw = h.show_message(text);
        match self.handle_exit(h, raw) {
            Ok(raw2) => {
                let rooted = self.root(h, raw2);
                Ok(Value { raw: rooted, env_id: self.raw() })
            },
            Err(e) => Err(e),
        }
    }

    /// Calls a function value with no arguments, translating any non-local
    /// exit the call leaves behind.
    pub fn call0(&mut self, h: &mut HostState, f: Value) -> (r: Result<Value, ErrorKind>)
        requires
            old(self).inv(*old(h)),
            old(h).wf(),
            old(h).exit == ExitStatus::Return,
            old(self).issued(f),
            old(h).valid_id(f.raw),
        ensures
            final(h).wf(),
            final(self).inv(*final(h)),
            final(h).exit == ExitStatus::Return,
            final(h).values@ == old(h).values@,
            final(h).defined_errors@ == old(h).defined_errors@,
            final(h).features@ == old(h).features@,
            final(h).messages@ == old(h).messages@,
            final(self).env_id == old(self).env_id,
            match old(h).values@[f.raw as int] {
                ValueData::Func { behavior } => match behavior {
                    crate::host::FuncBehavior::Returns { result } => (r matches Ok(v) && v.raw
                        == result && v.env_id == old(self).env_id) && rooted_one(
                        *old(self),
                        *final(self),
                        old(h).refs@,
                        final(h).refs@,
                        result,
                    ),
                    crate::host::FuncBehavior::Signals { symbol, data } => (r matches Err(
                        crate::error::ErrorKind::Signal { symbol: s, data: d },
                    ) && s.raw == symbol && d.raw == data && s.origin == old(self).env_id
                        && d.origin == old(self).env_id) && final(h).refs@ == old(h).refs@
                        && *final(self) == *old(self),
                    crate::host::FuncBehavior::Throws { tag, value } => (r matches Err(
                        crate::error::ErrorKind::Throw { tag: t, value: v },
                    ) && t.raw == tag && v.raw == value && t.origin == old(self).env_id
                        && v.origin == old(self).env_id) && final(h).refs@ == old(h).refs@
                        && *final(self) == *old(self),
                },
                _ => (r matches Err(crate::error::ErrorKind::Signal { symbol: s, data: d })
                    && s.raw == crate::host::SYM_INVALID_FUNCTION && d.raw == NIL && s.origin
                    == old(self).env_id && d.origin == old(self).env_id) && final(h).refs@ == old(h).refs@ && *final(self) == *old(self),
            },
    {
        let raw = h.funcall(f.raw);
        match self.handle_exit(h, raw) {
            Ok(raw2) => {
                proof {
                    assert(h.entry_wf(f.raw as int));
                }
                let rooted = self.root(h, raw2);
                Ok(Value { raw: rooted, env_id: self.raw() })
            },
            Err(e) => Err(e),
        }
    }

    /// Reads an integer back out of a value issued through this handle.
    pub fn int_value(&mut self, h: &mut HostState, v: Value) -> (r: Result<i64, ErrorKind>)
        requires
            old(self).inv(*old(h)),
            old(h).wf(),
            old(h).exit == ExitStatus::Return,
            old(self).issued(v),
            old(h).valid_id(v.raw),
        ensures
            final(h).wf(),
            final(self).inv(*final(h)),
            final(h).exit == ExitStatus::Return,
            HostState::same_heap(*old(h), *final(h)),
            *final(self) == *old(self),
            (old(h).values@[v.raw as int] matches ValueData::Int { n } ==> r == Result::<
                i64,
                ErrorKind,
            >::Ok(n)),
            !(old(h).values@[v.raw as int] is Int) ==> (r matches Err(
                crate::error::ErrorKind::Signal { symbol: s, data: d },
            ) && s.raw == crate::host::SYM_WRONG_TYPE_ARGUMENT && d.raw == NIL && s.origin == old(self).env_id && d.origin == old(self).env_id),
    {
        let raw = h.extract_integer(v.raw);
        self.handle_exit(h, raw)
    }

    /// Reads a string's text back out of a value issued through this handle.
    pub fn string_value(&mut self, h: &mut HostState, v: Value) -> (r: Result<String, ErrorKind>)
        requires
            old(self).inv(*old(h)),
            old(h).wf(),
            old(h).exit == ExitStatus::Return,
            old(self).issued(v),
            old(h).valid_id(v.raw),
        ensures
            final(h).wf(),
            final(self).inv(*final(h)),
            final(h).exit == ExitStatus::Return,
            HostState::same_heap(*old(h), *final(h)),
            *final(self) == *old(self),
            (old(h).values@[v.raw as int] matches ValueData::Str { text } ==> (r matches Ok(s)
                && s@ == text@)),
            !(old(h).values@[v.raw as int] is Str) ==> (r matches Err(
                crate::error::ErrorKind::Signal { symbol: s, data: d },
            ) && s.raw == crate::host::SYM_WRONG_TYPE_ARGUMENT && d.raw == NIL && s.origin == old(self).env_id && d.origin == old(self).env_id),
    {
        let text = h.copy_string_contents(v.raw);
        self.handle_exit(h, text)
    }

    /// Reads the native type tag of a wrapped native pointer issued through
    /// this handle.
    pub fn user_ptr_tag(&mut self, h: &mut HostState, v: Value) -> (r: Result<String, ErrorKind>)
        requires
            old(self).inv(*old(h)),
            old(h).wf(),
            old(h).exit == ExitStatus::Return,
            old(self).issued(v),
            old(h).valid_id(v.raw),
        ensures
            final(h).wf(),
            final(self).inv(*final(h)),
            final(h).exit == ExitStatus::Return,
            HostState::same_heap(*old(h), *final(h)),
            *final(self) == *old(self),
            (old(h).values@[v.raw as int] matches ValueData::UserPtr { type_tag } ==> (r matches
                Ok(s) && s@ == type_tag@)),
            !(old(h).values@[v.raw as int] is UserPtr) ==> (r matches Err(
                crate::error::ErrorKind::Signal { symbol: s, data: d },
            ) && s.raw == crate::host::SYM_WRONG_TYPE_ARGUMENT && d.raw == NIL && s.origin == old(self).env_id && d.origin == old(self).env_id),
    {
        let tag = h.get_user_ptr_tag(v.raw);
        self.handle_exit(h, tag)
    }

    /// Divides two integer values through the host's division subroutine.
    pub fn divide(&mut self, h: &mut HostState, a: Value, b: Value) -> (r: Result<
        Value,
        ErrorKind,
    >)
        requires
            old(self).inv(*old(h)),
            old(h).wf(),
            old(h).exit == ExitStatus::Return,
            old(self).issued(a),
            old(self).issued(b),
            old(h).valid_id(a.raw),
            old(h).valid_id(b.raw),
        ensures
            final(h).wf(),
            final(self).inv(*final(h)),
            final(h).exit == ExitStatus::Return,
            final(h).defined_errors@ == old(h).defined_errors@,
            final(h).features@ == old(h).features@,
            final(h).messages@ == old(h).messages@,
            final(self).env_id == old(self).env_id,
            match (old(h).values@[a.raw as int], old(h).values@[b.raw as int]) {
                (ValueData::Int { n: x }, ValueData::Int { n: y }) => {
                    if y == 0 || (x == i64::MIN && y == -1) {
                        (r matches Err(crate::error::ErrorKind::Signal { symbol: s, data: d })
                            && s.raw == crate::host::SYM_ARITH_ERROR && d.raw == NIL && s.origin
                            == old(self).env_id && d.origin == old(self).env_id) && final(h).values@ == old(h).values@
                    } else {
                        (r matches Ok(v) && final(h).values@[v.raw as int] == (ValueData::Int {
                            n: HostState::trunc_div(x as int, y as int) as i64,
                        }) && v.env_id == old(self).env_id && final(h).valid_id(v.raw)) && final(h).values@.drop_last() == old(h).values@
                    }
                },
                _ => (r matches Err(crate::error::ErrorKind::Signal { symbol: s, data: d })
                    && s.raw == crate::host::SYM_WRONG_TYPE_ARGUMENT && d.raw == NIL && s.origin
                    == old(self).env_id && d.origin == old(self).env_id) && final(h).values@
                    == old(h).values@,
            },
    {
        let raw = h.div_int(a.raw, b.raw);
        match self.handle_exit(h, raw) {
            Ok(raw2) => {
                let rooted = self.root(h, raw2);
                Ok(Value { raw: rooted, env_id: self.raw() })
            },
            Err(e) => Err(e),
        }
    }

    /// The registry invariant survives the host rooting one more value.
    pub proof fn lemma_inv_refs_push(self, h1: HostState, h2: HostState, x: u64)
        requires
            self.inv(h1),
            h2.refs@ == h1.refs@.push(x),
            h2.values@.len() >= h1.values@.len(),
        ensures
            self.inv(h2),
    {
        broadcast use vstd::seq_lib::group_to_multiset_ensures;
        broadcast use vstd::multiset::group_multiset_axioms;

        match self.protected {
            Option::None => {},
            Option::Some(regs) => {
                assert(h2.refs@.to_multiset() =~= h1.refs@.to_multiset().insert(x));
                assert forall|y: u64|
                    regs@.to_multiset().count(y) <= h2.refs@.to_multiset().count(y) by {
                    assert(regs@.to_multiset().count(y) <= h1.refs@.to_multiset().count(y));
                }
                assert forall|k: int| 0 <= k < regs@.len() implies h2.valid_id(
                    #[trigger] regs@[k],
                ) by {
                    assert(h1.valid_id(regs@[k]));
                }
            },
        }
    }
}

impl GlobalRef {
    /// Roots a value for the rest of the process, outside any handle's
    /// registry, and wraps the rooted reference.
    pub fn new(h: &mut HostState, v: Value) -> (g: GlobalRef)
        requires
            old(h).wf(),
            old(h).exit == ExitStatus::Return,
            old(h).valid_id(v.raw),
        ensures
            final(h).wf(),
            final(h).exit == ExitStatus::Return,
            final(h).values@ == old(h).values@,
            final(h).defined_errors@ == old(h).defined_errors@,
            final(h).features@ == old(h).features@,
            final(h).messages@ == old(h).messages@,
            final(h).refs@ == old(h).refs@.push(v.raw),
            g.raw == v.raw,
    {
        let raw = h.make_global_ref(v.raw);
        GlobalRef { raw }
    }
}

} // verus!
