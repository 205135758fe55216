//! The deferred error-hierarchy registrar.
//!
//! Native code declares custom error symbols at static-initialization time,
//! before any handle exists: each declaration is queued as data.  When the
//! module is first given a handle, the queue is drained exactly once, in
//! queuing order, declaring each error through the handle.  Order matters:
//! a declaration may name an earlier declaration's symbol as a parent, and
//! an unknown parent fails the whole activation — no partial success is
//! tolerated silently.  The process-wide cell and lock around the single
//! instance live outside the verified library.

use vstd::prelude::*;

use crate::env::{raws_of, Env, Value};
use crate::error::ErrorKind;
use crate::host::{ExitStatus, HostState, NIL, SYM_ERROR};

verus! {

/// One deferred declaration: an error symbol's name, its message, and the
/// names of its parent error symbols.
#[derive(Clone, Debug, PartialEq)]
pub struct ErrorDef {
    /// Name of the error symbol to declare.
    pub name: String,
    /// Human-readable message of the error.
    pub message: String,
    /// Names of the parent error symbols, which must already be declared
    /// when this declaration runs.
    pub parents: Vec<String>,
}

/// The process-wide, drain-once queue of deferred declarations.
#[derive(Debug)]
pub struct Registrar {
    /// Queued declarations, in queuing order.
    pub queue: Vec<ErrorDef>,
    /// Whether activation has run; queuing afterwards is a logic error.
    pub drained: bool,
}

/// The set of names of the declared error symbols of a host state.
pub open spec fn defined_names(h: HostState) -> Set<Seq<char>> {
    Set::new(
        |name: Seq<char>|
            exists|k: int|
                0 <= k < h.defined_errors@.len() && h.symbol_name(
                    #[trigger] h.defined_errors@[k].0,
                ) == name,
    )
}

/// Whether a queue of declarations can run through, in order, against a
/// starting set of declared names: each declaration's parents must all be
/// declared by the time it runs, counting the declarations before it.
pub open spec fn defs_admissible(defined: Set<Seq<char>>, defs: Seq<ErrorDef>) -> bool
    decreases defs.len(),
{
    if defs.len() == 0 {
        true
    } else {
        let d = defs[0];
        (forall|k: int| 0 <= k < d.parents@.len() ==> defined.contains(#[trigger] d.parents@[k]@))
            && defs_admissible(defined.insert(d.name@), defs.drop_first())
    }
}

/// No name involved in the declaration holds an interior nul, so each can
/// be handed to the host's symbol table.
pub open spec fn def_encodable(d: ErrorDef) -> bool {
    &&& !d.name@.contains('\0')
    &&& forall|k: int| 0 <= k < d.parents@.len() ==> !(#[trigger] d.parents@[k]@).contains('\0')
}

/// Hierarchy activation order: a queue that declares a parent before the
/// child naming it is admissible, while the swapped queue is not — the
/// child then runs before its parent exists.
pub proof fn lemma_activation_order(defined: Set<Seq<char>>, parent: ErrorDef, child: ErrorDef)
    requires
        forall|k: int|
            0 <= k < parent.parents@.len() ==> defined.contains(#[trigger] parent.parents@[k]@),
        child.parents@.len() == 1,
        child.parents@[0]@ == parent.name@,
        !defined.contains(parent.name@),
    ensures
        defs_admissible(defined, seq![parent, child]),
        !defs_admissible(defined, seq![child, parent]),
{
    let good = seq![parent, child];
    assert(good.drop_first() =~= seq![child]);
    assert(seq![child].drop_first() =~= Seq::<ErrorDef>::empty());
    assert(defined.insert(parent.name@).contains(child.parents@[0]@));
    assert(defs_admissible(defined.insert(parent.name@).insert(child.name@), Seq::empty()));
    assert(defs_admissible(defined.insert(parent.name@), seq![child]));
    let bad = seq![child, parent];
    assert(bad[0] == child);
    assert(!defined.contains(child.parents@[0]@));
}

/// An activated entry matches its queued declaration: its symbol carries
/// the declared name, its message is the declared message, and its
/// recorded parents are the symbols named by the declared parent names, in
/// order.
pub open spec fn entry_matches_def(h: HostState, e: (u64, String, Vec<u64>), d: ErrorDef) -> bool {
    &&& h.symbol_name(e.0) == d.name@
    &&& e.1@ == d.message@
    &&& e.2@.len() == d.parents@.len()
    &&& forall|k: int| 0 <= k < e.2@.len() ==> h.symbol_name(#[trigger] e.2@[k]) == d.parents@[k]@
}

/// The match between an entry and its declaration only reads symbol names,
/// so it survives heap growth.
proof fn lemma_entry_matches_stable(
    h1: HostState,
    h2: HostState,
    e: (u64, String, Vec<u64>),
    d: ErrorDef,
)
    requires
        h1.error_entry_wf(e),
        entry_matches_def(h1, e, d),
        h2.values@.len() >= h1.values@.len(),
        h2.values@.subrange(0, h1.values@.len() as int) == h1.values@,
    ensures
        entry_matches_def(h2, e, d),
{
    let v0 = e.0 as int;
    assert(h2.values@[v0] == h2.values@.subrange(0, h1.values@.len() as int)[v0]);
    assert forall|k: int| 0 <= k < e.2@.len() implies h2.symbol_name(#[trigger] e.2@[k])
        == d.parents@[k]@ by {
        assert(h1.is_symbol(e.2@[k]));
        let v = e.2@[k] as int;
        assert(h2.values@[v] == h2.values@.subrange(0, h1.values@.len() as int)[v]);
    }
}

/// The declared-name set only looks at the declared entries and the names
/// of their symbols, so it survives any transition that keeps the declared
/// entries and the already-issued part of the heap.
pub proof fn lemma_defined_names_stable(h1: HostState, h2: HostState)
    requires
        h1.wf(),
        h2.defined_errors@ == h1.defined_errors@,
        h2.values@.len() >= h1.values@.len(),
        h2.values@.subrange(0, h1.values@.len() as int) == h1.values@,
    ensures
        defined_names(h2) == defined_names(h1),
{
    assert forall|k: int| 0 <= k < h1.defined_errors@.len() implies h2.symbol_name(
        (#[trigger] h1.defined_errors@[k]).0,
    ) == h1.symbol_name(h1.defined_errors@[k].0) by {
        assert(h1.is_symbol(h1.defined_errors@[k].0));
        let v = h1.defined_errors@[k].0 as int;
        assert(h2.values@[v] == h2.values@.subrange(0, h1.values@.len() as int)[v]);
    }
    assert(defined_names(h2) =~= defined_names(h1));
}

/// Declaring one more error symbol adds exactly its name to the declared
/// names.
pub proof fn lemma_defined_names_push(h1: HostState, h2: HostState)
    requires
        h1.wf(),
        h2.wf(),
        h2.defined_errors@.len() == h1.defined_errors@.len() + 1,
        h2.defined_errors@.drop_last() == h1.defined_errors@,
        h2.values@ == h1.values@,
    ensures
        defined_names(h2) == defined_names(h1).insert(
            h2.symbol_name(h2.defined_errors@.last().0),
        ),
{
    let n1 = h1.defined_errors@.len() as int;
    assert forall|k: int| 0 <= k < n1 implies h2.defined_errors@[k] == h1.defined_errors@[k] by {
        assert(h1.defined_errors@[k] == h2.defined_errors@.drop_last()[k]);
    }
    let name = h2.symbol_name(h2.defined_errors@.last().0);
    assert forall|x: Seq<char>| defined_names(h2).contains(x) implies defined_names(
        h1,
    ).insert(name).contains(x) by {
        let k = choose|k: int|
            0 <= k < h2.defined_errors@.len() && h2.symbol_name(h2.defined_errors@[k].0) == x;
        if k < n1 {
            assert(h1.symbol_name(h1.defined_errors@[k].0) == x);
        }
    }
    assert forall|x: Seq<char>| defined_names(h1).insert(name).contains(x) implies defined_names(
        h2,
    ).contains(x) by {
        if defined_names(h1).contains(x) {
            let k = choose|k: int|
                0 <= k < h1.defined_errors@.len() && h1.symbol_name(h1.defined_errors@[k].0)
                    == x;
            assert(h2.symbol_name(h2.defined_errors@[k].0) == x);
        } else {
            assert(h2.symbol_name(h2.defined_errors@[n1].0) == x);
        }
    }
    assert(defined_names(h2) =~= defined_names(h1).insert(name));
}

/// For a symbol of the heap, being a declared error symbol is the same as
/// its name being among the declared names: symbol names are unique, so a
/// name determines its symbol.
pub proof fn lemma_defined_name_id(h: HostState, sym: u64)
    requires
        h.wf(),
        h.is_symbol(sym),
    ensures
        h.error_defined(sym) == defined_names(h).contains(h.symbol_name(sym)),
{
    if h.error_defined(sym) {
        let k = choose|k: int|
            0 <= k < h.defined_errors@.len() && h.defined_errors@[k].0 == sym;
        assert(h.symbol_name(h.defined_errors@[k].0) == h.symbol_name(sym));
        assert(defined_names(h).contains(h.symbol_name(sym)));
    }
    if defined_names(h).contains(h.symbol_name(sym)) {
        let k = choose|k: int|
            0 <= k < h.defined_errors@.len() && h.symbol_name(h.defined_errors@[k].0)
                == h.symbol_name(sym);
        let other = h.defined_errors@[k].0;
        assert(h.is_symbol(other));
        if other != sym {
            assert(h.values@[other as int] is Symbol && h.values@[sym as int] is Symbol);
            assert(h.values@[other as int]->Symbol_name@ != h.values@[sym as int]->Symbol_name@);
            assert(false);
        }
        assert(h.error_defined(sym));
    }
}

impl Registrar {
    /// A fresh, empty queue that has not been drained.
    pub fn new() -> (r: Registrar)
        ensures
            r.queue@.len() == 0,
            !r.drained,
    {
        Registrar { queue: Vec::new(), drained: false }
    }

    /// Queues one declaration.  Queuing after the drain is a logic error,
    /// not a supported dynamic-registration path, so it is ruled out here.
    pub fn enqueue(&mut self, def: ErrorDef)
        requires
            !old(self).drained,
            def_encodable(def),
        ensures
            final(self).queue@ == old(self).queue@.push(def),
            !final(self).drained,
    {
        self.queue.push(def);
    }

    /// Drains the queue once, declaring every queued error through the
    /// handle in queuing order.  Succeeds exactly when the queue is
    /// admissible against the already-declared names: each declaration's
    /// parents declared by the time it runs.  The first failing declaration
    /// aborts activation with its error; nothing is declared past it.
    pub fn activate(&mut self, env: &mut Env, h: &mut HostState) -> (r: Result<(), ErrorKind>)
        requires
            !old(self).drained,
            forall|i: int|
                0 <= i < old(self).queue@.len() ==> def_encodable(#[trigger] old(self).queue@[i]),
            old(env).inv(*old(h)),
            old(h).wf(),
            old(h).exit == ExitStatus::Return,
        ensures
            final(self).drained,
            final(self).queue@ == old(self).queue@,
            final(env).inv(*final(h)),
            final(env).env_id == old(env).env_id,
            final(h).wf(),
            final(h).exit == ExitStatus::Return,
            final(h).values@.len() >= old(h).values@.len(),
            final(h).values@.subrange(0, old(h).values@.len() as int) == old(h).values@,
            final(h).features@ == old(h).features@,
            final(h).messages@ == old(h).messages@,
            (r is Ok) == defs_admissible(defined_names(*old(h)), old(self).queue@),
            r is Ok ==> {
                &&& final(h).defined_errors@.len() == old(h).defined_errors@.len() + old(
                    self,
                ).queue@.len()
                &&& final(h).defined_errors@.subrange(0, old(h).defined_errors@.len() as int)
                    == old(h).defined_errors@
                &&& forall|i: int|
                    0 <= i < old(self).queue@.len() ==> entry_matches_def(
                        *final(h),
                        #[trigger] final(h).defined_errors@[old(h).defined_errors@.len() + i],
                        old(self).queue@[i],
                    )
            },
            r matches Err(e) ==> (e matches ErrorKind::Signal { symbol: es, data: ed } && es.raw
                == SYM_ERROR && ed.raw == NIL && es.origin == old(env).env_id && ed.origin
                == old(env).env_id),
    {
        self.drained = true;
        let ghost h0 = *h;
        let n = self.queue.len();
        let mut i: usize = 0;
        proof {
            assert(self.queue@.skip(0) =~= self.queue@);
        }
        while i < n
            invariant
                h0 == *old(h),
                h0.wf(),
                self.drained,
                self.queue@ == old(self).queue@,
                n == self.queue@.len(),
                i <= n,
                forall|k: int|
                    0 <= k < self.queue@.len() ==> def_encodable(#[trigger] self.queue@[k]),
                env.inv(*h),
                env.env_id == old(env).env_id,
                h.wf(),
                h.exit == ExitStatus::Return,
                h.values@.len() >= h0.values@.len(),
                h.values@.subrange(0, h0.values@.len() as int) == h0.values@,
                h.features@ == h0.features@,
                h.messages@ == h0.messages@,
                h.defined_errors@.len() == h0.defined_errors@.len() + i,
                h.defined_errors@.subrange(0, h0.defined_errors@.len() as int)
                    == h0.defined_errors@,
                forall|j: int|
                    0 <= j < i ==> entry_matches_def(
                        *h,
                        #[trigger] h.defined_errors@[h0.defined_errors@.len() + j],
                        self.queue@[j],
                    ),
                defs_admissible(defined_names(*h), self.queue@.skip(i as int))
                    == defs_admissible(defined_names(h0), self.queue@),
            decreases n - i,
        {
            let def = vstd::std_specs::vec::vec_index(&self.queue, i);
            let np = def.parents.len();
            let mut pvals: Vec<Value> = Vec::new();
            let mut j: usize = 0;
            let ghost hi = *h;
            while j < np
                invariant
                    pvals@.len() == j,
                    j <= np,
                    np == def.parents@.len(),
                    def == self.queue@[i as int],
                    i < n,
                    n == self.queue@.len(),
                    self.queue@ == old(self).queue@,
                    forall|k: int|
                        0 <= k < self.queue@.len() ==> def_encodable(#[trigger] self.queue@[k]),
                    forall|k: int|
                        0 <= k < j ==> (#[trigger] pvals@[k]).env_id == env.env_id
                            && h.is_symbol(pvals@[k].raw) && h.symbol_name(pvals@[k].raw)
                            == def.parents@[k]@,
                    env.inv(*h),
                    env.env_id == old(env).env_id,
                    h.wf(),
                    hi.wf(),
                    h0.wf(),
                    hi.values@.len() >= h0.values@.len(),
                    hi.values@.subrange(0, h0.values@.len() as int) == h0.values@,
                    hi.defined_errors@ == h.defined_errors@,
                    h.exit == ExitStatus::Return,
                    h.values@.len() >= hi.values@.len(),
                    h.values@.subrange(0, hi.values@.len() as int) == hi.values@,
                    h.defined_errors@ == hi.defined_errors@,
                    h.features@ == hi.features@,
                    h.messages@ == hi.messages@,
                decreases np - j,
            {
                let ghost hj = *h;
                let p = vstd::std_specs::vec::vec_index(&def.parents, j);
                let pv = match env.intern(h, p.as_str()) {
                    Ok(v) => v,
                    Err(e) => {
                        proof {
                            assert(def_encodable(self.queue@[i as int]));
                            assert(!def.parents@[j as int]@.contains('\0'));
                        }
                        return Err(e);
                    },
                };
                pvals.push(pv);
                j = j + 1;
                proof {
                    assert(h.values@.subrange(0, hi.values@.len() as int) =~= hi.values@);
                    assert forall|k: int|
                        0 <= k < j - 1 implies h.is_symbol((#[trigger] pvals@[k]).raw)
                            && h.symbol_name(pvals@[k].raw) == def.parents@[k]@ by {
                        assert(hj.is_symbol(pvals@[k].raw));
                        let v = pvals@[k].raw as int;
                        if h.values@.len() > hj.values@.len() {
                            assert(h.values@[v] == h.values@.drop_last()[v]);
                        }
                    }
                }
            }
            let name_sym = match env.intern(h, def.name.as_str()) {
                Ok(v) => v,
                Err(e) => {
                    proof {
                        assert(def_encodable(self.queue@[i as int]));
                    }
                    return Err(e);
                },
            };
            proof {
                assert(h.values@.subrange(0, hi.values@.len() as int) =~= hi.values@);
                assert forall|k: int|
                    0 <= k < np implies h.is_symbol((#[trigger] pvals@[k]).raw)
                        && h.symbol_name(pvals@[k].raw) == def.parents@[k]@ by {
                    let v = pvals@[k].raw as int;
                    if h.values@.len() > hi.values@.len() && v < hi.values@.len() {
                        assert(h.values@[v] == h.values@.subrange(0, hi.values@.len() as int)[v]);
                    }
                }
            }
            let ghost hpre = *h;
            let res = env.define_error(h, name_sym, def.message.as_str(), &pvals);
            proof {
                lemma_defined_names_stable(hi, hpre);
                let names_pre = defined_names(hpre);
                let rest = self.queue@.skip(i as int);
                assert(rest.len() > 0);
                assert(rest[0] == self.queue@[i as int]);
                if !hpre.all_errors_defined(raws_of(pvals@)) {
                    let bad = choose|k: int|
                        0 <= k < raws_of(pvals@).len() && !hpre.error_defined(
                            raws_of(pvals@)[k],
                        );
                    lemma_defined_name_id(hpre, pvals@[bad].raw);
                    assert(!names_pre.contains(def.parents@[bad]@));
                    assert(!defs_admissible(names_pre, rest));
                }
            }
            match res {
                Ok(_) => {
                    proof {
                        let names_pre = defined_names(hpre);
                        let rest = self.queue@.skip(i as int);
                        assert(hpre.all_errors_defined(raws_of(pvals@)));
                        assert forall|k: int| 0 <= k < np implies names_pre.contains(
                            #[trigger] def.parents@[k]@,
                        ) by {
                            assert(hpre.error_defined(raws_of(pvals@)[k]));
                            lemma_defined_name_id(hpre, pvals@[k].raw);
                        }
                        lemma_defined_names_push(hpre, *h);
                        assert(h.symbol_name(h.defined_errors@.last().0)
                            == self.queue@[i as int].name@);
                        assert forall|j: int| 0 <= j < i + 1 implies entry_matches_def(
                            *h,
                            #[trigger] h.defined_errors@[h0.defined_errors@.len() + j],
                            self.queue@[j],
                        ) by {
                            if j < i {
                                let e = h.defined_errors@[h0.defined_errors@.len() + j];
                                assert(hpre.defined_errors@[h0.defined_errors@.len() + j]
                                    == h.defined_errors@.drop_last()[h0.defined_errors@.len()
                                    + j]);
                                assert(e == hi.defined_errors@[h0.defined_errors@.len() + j]);
                                assert(entry_matches_def(hi, e, self.queue@[j]));
                                assert(hi.error_entry_wf(
                                    hi.defined_errors@[h0.defined_errors@.len() + j],
                                ));
                                assert(h.values@.subrange(0, hi.values@.len() as int)
                                    =~= hi.values@);
                                lemma_entry_matches_stable(hi, *h, e, self.queue@[j]);
                            } else {
                                let e = h.defined_errors@[h0.defined_errors@.len() + j];
                                assert(e == h.defined_errors@.last());
                                assert(h.symbol_name(e.0) == self.queue@[i as int].name@);
                                assert(e.2@ == raws_of(pvals@));
                                assert forall|k: int|
                                    0 <= k < e.2@.len() implies h.symbol_name(
                                    #[trigger] e.2@[k],
                                ) == self.queue@[i as int].parents@[k]@ by {
                                    assert(e.2@[k] == pvals@[k].raw);
                                    assert(hpre.is_symbol(pvals@[k].raw));
                                    assert(hpre.symbol_name(pvals@[k].raw)
                                        == def.parents@[k]@);
                                }
                            }
                        }
                        assert(rest.drop_first() =~= self.queue@.skip(i as int + 1));
                        assert(defs_admissible(defined_names(*h), self.queue@.skip(i as int + 1))
                            == defs_admissible(names_pre, rest));
                        assert(h.defined_errors@.subrange(0, h0.defined_errors@.len() as int)
                            =~= h0.defined_errors@);
                    }
                    i = i + 1;
                },
                Err(e) => {
                    proof {
                        let names_pre = defined_names(hpre);
                        let rest = self.queue@.skip(i as int);
                        assert(!hpre.all_errors_defined(raws_of(pvals@)));
                        assert(!defs_admissible(names_pre, rest));
                        assert(h.values@.subrange(0, h0.values@.len() as int) =~= h0.values@);
                    }
                    return Err(e);
                },
            }
        }
        proof {
            assert(self.queue@.skip(n as int) =~= Seq::<ErrorDef>::empty());
            assert(defs_admissible(defined_names(*h), self.queue@.skip(n as int)));
            assert(h.defined_errors@.subrange(0, h0.defined_errors@.len() as int)
                =~= h0.defined_errors@);
        }
        Ok(())
    }
}

} // verus!
