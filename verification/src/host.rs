//! Model of the host interpreter's side of the boundary.
//!
//! The host communicates through a callback table whose observable behaviour
//! is a three-state exit machine plus a heap of opaque values.  This module
//! states that behaviour exactly: [`HostState`] is the state, and each
//! callback of the table is a verified transition on it.  Every callback
//! except the exit-status primitives themselves short-circuits while a
//! non-local exit is pending, which is why the handle's teardown must clear
//! and later restore a pending exit around its release calls.

use vstd::prelude::*;

verus! {

/// Raw exit code reported by the host for a normal return.
pub const EXIT_CODE_RETURN: u32 = 0;

/// Raw exit code reported by the host for a pending error signal.
pub const EXIT_CODE_SIGNAL: u32 = 1;

/// Raw exit code reported by the host for a pending throw.
pub const EXIT_CODE_THROW: u32 = 2;

/// Ternary state of the host call mechanism.  At most one non-local exit is
/// pending at any instant; the carried fields are identifiers of opaque
/// values owned by the host.
#[derive(Clone, Copy, Debug, PartialEq, Eq, Structural)]
pub enum ExitStatus {
    /// No non-local exit is pending.
    Return,
    /// An error signal is pending, carrying a symbol and a data value.
    Signal { symbol: u64, data: u64 },
    /// A throw is pending, carrying a tag and a payload value.
    Throw { tag: u64, value: u64 },
}

/// Decodes the raw triple reported by the host's exit-status query.
///
/// `None` means the host reported a status outside its documented protocol;
/// the caller must treat that as a fatal protocol violation and abort, never
/// absorb it silently.
pub fn decode_exit(code: u32, a: u64, b: u64) -> (r: Option<ExitStatus>)
    ensures
        code == EXIT_CODE_RETURN ==> r == Some(ExitStatus::Return),
        code == EXIT_CODE_SIGNAL ==> r == Some(ExitStatus::Signal { symbol: a, data: b }),
        code == EXIT_CODE_THROW ==> r == Some(ExitStatus::Throw { tag: a, value: b }),
        code > EXIT_CODE_THROW ==> r is None,
{
    if code == EXIT_CODE_RETURN {
        Some(ExitStatus::Return)
    } else if code == EXIT_CODE_SIGNAL {
        Some(ExitStatus::Signal { symbol: a, data: b })
    } else if code == EXIT_CODE_THROW {
        Some(ExitStatus::Throw { tag: a, value: b })
    } else {
        None
    }
}

/// Encodes an exit status as the raw triple the host would report for it.
pub fn encode_exit(s: ExitStatus) -> (r: (u32, u64, u64))
    ensures
        decode_exit_spec(r.0, r.1, r.2) == Some(s),
{
    match s {
        ExitStatus::Return => (EXIT_CODE_RETURN, 0, 0),
        ExitStatus::Signal { symbol, data } => (EXIT_CODE_SIGNAL, symbol, data),
        ExitStatus::Throw { tag, value } => (EXIT_CODE_THROW, tag, value),
    }
}

/// What [`decode_exit`] returns, as a spec-level function.
pub open spec fn decode_exit_spec(code: u32, a: u64, b: u64) -> Option<ExitStatus> {
    if code == EXIT_CODE_RETURN {
        Some(ExitStatus::Return)
    } else if code == EXIT_CODE_SIGNAL {
        Some(ExitStatus::Signal { symbol: a, data: b })
    } else if code == EXIT_CODE_THROW {
        Some(ExitStatus::Throw { tag: a, value: b })
    } else {
        None
    }
}

/// Identifier of the host's `nil` symbol, issued at host construction.
pub const NIL: u64 = 0;

/// Identifier of the host's root error symbol.
pub const SYM_ERROR: u64 = 1;

/// Identifier of the host's wrong-type-argument error symbol.
pub const SYM_WRONG_TYPE_ARGUMENT: u64 = 2;

/// Identifier of the host's arithmetic-error symbol.
pub const SYM_ARITH_ERROR: u64 = 3;

/// Identifier of the host's invalid-function error symbol.
pub const SYM_INVALID_FUNCTION: u64 = 4;

/// Identifier of the type symbol the host reports for symbols.
pub const SYM_TYPE_SYMBOL: u64 = 5;

/// Identifier of the type symbol the host reports for strings.
pub const SYM_TYPE_STRING: u64 = 6;

/// Identifier of the type symbol the host reports for integers.
pub const SYM_TYPE_INTEGER: u64 = 7;

/// Identifier of the type symbol the host reports for cons cells.
pub const SYM_TYPE_CONS: u64 = 8;

/// Identifier of the type symbol the host reports for functions.
pub const SYM_TYPE_FUNCTION: u64 = 9;

/// Identifier of the type symbol the host reports for wrapped native pointers.
pub const SYM_TYPE_USER_PTR: u64 = 10;

/// Number of values the host's heap holds at construction.
pub const BASE_VALUES: u64 = 11;

/// Observable behaviour of a host function value when called.  The model
/// reduces a function to the outcome its call produces, which is all the
/// bridge ever observes of one.
#[derive(Clone, Copy, Debug, PartialEq, Eq, Structural)]
pub enum FuncBehavior {
    /// Calling the function returns this value normally.
    Returns { result: u64 },
    /// Calling the function leaves an error signal pending.
    Signals { symbol: u64, data: u64 },
    /// Calling the function leaves a throw pending.
    Throws { tag: u64, value: u64 },
}

/// One opaque value of the host's heap, as far as the bridge can observe it
/// through the callback table.
#[derive(Clone, Debug, PartialEq)]
pub enum ValueData {
    /// An interned symbol with its name.
    Symbol { name: String },
    /// A string.
    Str { text: String },
    /// An integer.
    Int { n: i64 },
    /// A cons cell; both fields are identifiers of older values.
    Cons { car: u64, cdr: u64 },
    /// A callable value.
    Func { behavior: FuncBehavior },
    /// A wrapped native pointer, tagged with the name of its native type.
    UserPtr { type_tag: String },
}

/// The host interpreter's observable state.  An opaque value is identified by
/// its index into `values`; the heap only ever grows, and every value refers
/// only to values older than itself.
#[derive(Debug)]
pub struct HostState {
    /// The heap of opaque values, indexed by identifier.
    pub values: Vec<ValueData>,
    /// The ternary exit status, global to the current host call.
    pub exit: ExitStatus,
    /// Identifiers currently rooted against collection; one entry per
    /// outstanding root, so an identifier may occur more than once.
    pub refs: Vec<u64>,
    /// Declared error symbols, each with its message and the parent error
    /// symbols it was declared under, in declaration order.
    pub defined_errors: Vec<(u64, String, Vec<u64>)>,
    /// Features announced through `provide`, in order.
    pub features: Vec<u64>,
    /// Texts shown through `message`, in order.
    pub messages: Vec<String>,
}

impl HostState {
    /// An identifier the host has issued.
    pub open spec fn valid_id(self, v: u64) -> bool {
        (v as int) < self.values@.len()
    }

    /// The identifier names a symbol.
    pub open spec fn is_symbol(self, v: u64) -> bool {
        self.valid_id(v) && self.values@[v as int] is Symbol
    }

    /// Name of the symbol an identifier names.
    pub open spec fn symbol_name(self, v: u64) -> Seq<char> {
        self.values@[v as int]->Symbol_name@
    }

    /// Some symbol of the heap carries this name.
    pub open spec fn has_symbol(self, name: Seq<char>) -> bool {
        exists|i: int|
            0 <= i < self.values@.len() && self.values@[i] is Symbol
                && self.values@[i]->Symbol_name@ == name
    }

    /// The symbol has been declared as an error symbol.
    pub open spec fn error_defined(self, sym: u64) -> bool {
        exists|k: int| 0 <= k < self.defined_errors@.len() && self.defined_errors@[k].0 == sym
    }

    /// A declared-error entry holds a symbol, and its recorded parents are
    /// symbols too.
    pub open spec fn error_entry_wf(self, e: (u64, String, Vec<u64>)) -> bool {
        &&& self.is_symbol(e.0)
        &&& forall|j: int| 0 <= j < e.2@.len() ==> self.is_symbol(#[trigger] e.2@[j])
    }

    /// Every identifier of the sequence is a declared error symbol.
    pub open spec fn all_errors_defined(self, syms: Seq<u64>) -> bool {
        forall|k: int| 0 <= k < syms.len() ==> self.error_defined(#[trigger] syms[k])
    }

    /// A heap entry refers only to values older than itself, so the heap is
    /// acyclic by construction.
    pub open spec fn entry_wf(self, i: int) -> bool {
        match self.values@[i] {
            ValueData::Cons { car, cdr } => car < i && cdr < i,
            ValueData::Func { behavior } => match behavior {
                FuncBehavior::Returns { result } => result < i,
                FuncBehavior::Signals { symbol, data } => symbol < i && data < i,
                FuncBehavior::Throws { tag, value } => tag < i && value < i,
            },
            _ => true,
        }
    }

    /// The identifiers a pending exit carries have been issued.
    pub open spec fn exit_wf(self) -> bool {
        match self.exit {
            ExitStatus::Return => true,
            ExitStatus::Signal { symbol, data } => self.valid_id(symbol) && self.valid_id(data),
            ExitStatus::Throw { tag, value } => self.valid_id(tag) && self.valid_id(value),
        }
    }

    /// No two symbols of the heap share a name; interning is what keeps this.
    pub open spec fn symbols_unique(self) -> bool {
        forall|i: int, j: int|
            #![trigger self.values@[i], self.values@[j]]
            0 <= i < self.values@.len() && 0 <= j < self.values@.len() && i != j
                && self.values@[i] is Symbol && self.values@[j] is Symbol
                ==> self.values@[i]->Symbol_name@ != self.values@[j]->Symbol_name@
    }

    /// The symbols present on the heap from construction on.
    pub open spec fn base_symbols(self) -> bool {
        &&& self.values@[NIL as int] matches ValueData::Symbol { name } && name@ == "nil"@
        &&& self.values@[SYM_ERROR as int] matches ValueData::Symbol { name } && name@ == "error"@
        &&& self.values@[SYM_WRONG_TYPE_ARGUMENT as int] matches ValueData::Symbol { name }
            && name@ == "wrong-type-argument"@
        &&& self.values@[SYM_ARITH_ERROR as int] matches ValueData::Symbol { name }
            && name@ == "arith-error"@
        &&& self.values@[SYM_INVALID_FUNCTION as int] matches ValueData::Symbol { name }
            && name@ == "invalid-function"@
        &&& self.values@[SYM_TYPE_SYMBOL as int] matches ValueData::Symbol { name }
            && name@ == "symbol"@
        &&& self.values@[SYM_TYPE_STRING as int] matches ValueData::Symbol { name }
            && name@ == "string"@
        &&& self.values@[SYM_TYPE_INTEGER as int] matches ValueData::Symbol { name }
            && name@ == "integer"@
        &&& self.values@[SYM_TYPE_CONS as int] matches ValueData::Symbol { name }
            && name@ == "cons"@
        &&& self.values@[SYM_TYPE_FUNCTION as int] matches ValueData::Symbol { name }
            && name@ == "function"@
        &&& self.values@[SYM_TYPE_USER_PTR as int] matches ValueData::Symbol { name }
            && name@ == "user-ptr"@
    }

    /// Well-formedness of the whole host state.
    pub open spec fn wf(self) -> bool {
        &&& self.values@.len() >= BASE_VALUES
        &&& self.base_symbols()
        &&& forall|i: int| 0 <= i < self.values@.len() ==> #[trigger] self.entry_wf(i)
        &&& self.symbols_unique()
        &&& self.exit_wf()
        &&& forall|k: int|
            0 <= k < self.refs@.len() ==> self.valid_id(#[trigger] self.refs@[k])
        &&& forall|k: int|
            0 <= k < self.defined_errors@.len() ==> self.error_entry_wf(
                #[trigger] self.defined_errors@[k],
            )
        &&& forall|k: int|
            0 <= k < self.features@.len() ==> self.is_symbol(#[trigger] self.features@[k])
    }

    /// The heap and the registries agree between two states; only the exit
    /// status may differ.
    pub open spec fn same_heap(pre: HostState, post: HostState) -> bool {
        &&& post.values@ == pre.values@
        &&& post.refs@ == pre.refs@
        &&& post.defined_errors@ == pre.defined_errors@
        &&& post.features@ == pre.features@
        &&& post.messages@ == pre.messages@
    }

    /// Nothing observable differs between two states.
    pub open spec fn unchanged(pre: HostState, post: HostState) -> bool {
        Self::same_heap(pre, post) && post.exit == pre.exit
    }

    /// Well-formedness only looks at the heap and the registries, so it
    /// carries over any transition that leaves them alone, as long as a
    /// changed exit status still carries issued identifiers.  The message
    /// log is not constrained at all.
    pub proof fn lemma_same_heap_wf(pre: HostState, post: HostState)
        requires
            pre.wf(),
            post.values@ == pre.values@,
            post.refs@ == pre.refs@,
            post.defined_errors@ == pre.defined_errors@,
            post.features@ == pre.features@,
            post.exit_wf(),
        ensures
            post.wf(),
    {
        assert forall|i: int| 0 <= i < post.values@.len() implies #[trigger] post.entry_wf(i) by {
            assert(pre.entry_wf(i));
        }
        assert forall|i: int, j: int|
            #![trigger post.values@[i], post.values@[j]]
            0 <= i < post.values@.len() && 0 <= j < post.values@.len() && i != j
                && post.values@[i] is Symbol && post.values@[j] is Symbol implies post.values@[i]
            ->Symbol_name@ != post.values@[j]->Symbol_name@ by {
            assert(pre.values@[i] is Symbol && pre.values@[j] is Symbol);
        }
        assert forall|k: int| 0 <= k < post.refs@.len() implies post.valid_id(
            #[trigger] post.refs@[k],
        ) by {
            assert(pre.valid_id(pre.refs@[k]));
        }
        assert forall|k: int| 0 <= k < post.defined_errors@.len() implies post.error_entry_wf(
            #[trigger] post.defined_errors@[k],
        ) by {
            assert(pre.error_entry_wf(pre.defined_errors@[k]));
        }
        assert forall|k: int| 0 <= k < post.features@.len() implies post.is_symbol(
            #[trigger] post.features@[k],
        ) by {
            assert(pre.is_symbol(pre.features@[k]));
        }
    }

    /// A fresh host: no exit pending, nothing rooted, and the base symbols
    /// interned, of which the four error symbols are pre-declared.
    pub fn new() -> (h: HostState)
        ensures
            h.wf(),
            h.exit == ExitStatus::Return,
            h.values@.len() == BASE_VALUES,
            h.refs@.len() == 0,
            h.defined_errors@.len() == 4,
            h.defined_errors@[0].0 == SYM_ERROR,
            h.defined_errors@[1].0 == SYM_WRONG_TYPE_ARGUMENT,
            h.defined_errors@[2].0 == SYM_ARITH_ERROR,
            h.defined_errors@[3].0 == SYM_INVALID_FUNCTION,
            h.features@.len() == 0,
            h.messages@.len() == 0,
    {
        let mut values: Vec<ValueData> = Vec::new();
        values.push(ValueData::Symbol { name: String::from_str("nil") });
        values.push(ValueData::Symbol { name: String::from_str("error") });
        values.push(ValueData::Symbol { name: String::from_str("wrong-type-argument") });
        values.push(ValueData::Symbol { name: String::from_str("arith-error") });
        values.push(ValueData::Symbol { name: String::from_str("invalid-function") });
        values.push(ValueData::Symbol { name: String::from_str("symbol") });
        values.push(ValueData::Symbol { name: String::from_str("string") });
        values.push(ValueData::Symbol { name: String::from_str("integer") });
        values.push(ValueData::Symbol { name: String::from_str("cons") });
        values.push(ValueData::Symbol { name: String::from_str("function") });
        values.push(ValueData::Symbol { name: String::from_str("user-ptr") });
        let mut defined_errors: Vec<(u64, String, Vec<u64>)> = Vec::new();
        defined_errors.push((SYM_ERROR, String::from_str("error"), Vec::new()));
        let mut p1: Vec<u64> = Vec::new();
        p1.push(SYM_ERROR);
        defined_errors.push((SYM_WRONG_TYPE_ARGUMENT, String::from_str("Wrong type argument"), p1));
        let mut p2: Vec<u64> = Vec::new();
        p2.push(SYM_ERROR);
        defined_errors.push((SYM_ARITH_ERROR, String::from_str("Arithmetic error"), p2));
        let mut p3: Vec<u64> = Vec::new();
        p3.push(SYM_ERROR);
        defined_errors.push((SYM_INVALID_FUNCTION, String::from_str("Invalid function"), p3));
        let h = HostState {
            values,
            exit: ExitStatus::Return,
            refs: Vec::new(),
            defined_errors,
            features: Vec::new(),
            messages: Vec::new(),
        };
        proof {
            reveal_strlit("nil");
            reveal_strlit("error");
            reveal_strlit("wrong-type-argument");
            reveal_strlit("arith-error");
            reveal_strlit("invalid-function");
            reveal_strlit("symbol");
            reveal_strlit("string");
            reveal_strlit("integer");
            reveal_strlit("cons");
            reveal_strlit("function");
            reveal_strlit("user-ptr");
            assert(("symbol"@) != ("string"@)) by {
                assert(("symbol"@)[1] != ("string"@)[1]);
            }
            assert(("function"@) != ("user-ptr"@)) by {
                assert(("function"@)[0] != ("user-ptr"@)[0]);
            }
            assert(h.values@.len() == 11);
            assert(h.values@[0]->Symbol_name@ == "nil"@);
            assert(h.values@[1]->Symbol_name@ == "error"@);
            assert(h.values@[2]->Symbol_name@ == "wrong-type-argument"@);
            assert(h.values@[3]->Symbol_name@ == "arith-error"@);
            assert(h.values@[4]->Symbol_name@ == "invalid-function"@);
            assert(h.values@[5]->Symbol_name@ == "symbol"@);
            assert(h.values@[6]->Symbol_name@ == "string"@);
            assert(h.values@[7]->Symbol_name@ == "integer"@);
            assert(h.values@[8]->Symbol_name@ == "cons"@);
            assert(h.values@[9]->Symbol_name@ == "function"@);
            assert(h.values@[10]->Symbol_name@ == "user-ptr"@);
            assert(h.base_symbols());
            assert forall|i: int| 0 <= i < h.values@.len() implies #[trigger] h.entry_wf(i) by {
                assert(h.values@[i] is Symbol);
            }
            assert(h.symbols_unique());
        }
        h
    }

    /// Inspects the exit status without consuming it.  Mirrors the host's
    /// exit-status query, which reports the status and its carried values.
    pub fn non_local_exit_get(&self) -> (r: ExitStatus)
        ensures
            r == self.exit,
    {
        self.exit
    }

    /// Clears a pending exit so that later calls through the table are not
    /// short-circuited.  Works whatever the current status is.
    pub fn non_local_exit_clear(&mut self)
        requires
            old(self).wf(),
        ensures
            final(self).wf(),
            Self::same_heap(*old(self), *final(self)),
            final(self).exit == ExitStatus::Return,
    {
        self.exit = ExitStatus::Return;
        proof {
            HostState::lemma_same_heap_wf(*old(self), *self);
        }
    }

    /// Makes an error signal pending.  Like the host's own primitive it is a
    /// no-op while another exit is already pending.
    pub fn non_local_exit_signal(&mut self, symbol: u64, data: u64) -> (r: u64)
        requires
            old(self).wf(),
            old(self).valid_id(symbol),
            old(self).valid_id(data),
        ensures
            final(self).wf(),
            Self::same_heap(*old(self), *final(self)),
            old(self).exit == ExitStatus::Return ==> final(self).exit == (ExitStatus::Signal {
                symbol,
                data,
            }),
            old(self).exit != ExitStatus::Return ==> final(self).exit == old(self).exit,
            r == symbol,
    {
        if matches!(self.exit, ExitStatus::Return) {
            self.exit = ExitStatus::Signal { symbol, data };
        }
        proof {
            HostState::lemma_same_heap_wf(*old(self), *self);
        }
        symbol
    }

    /// Makes a throw pending.  A no-op while another exit is already pending.
    pub fn non_local_exit_throw(&mut self, tag: u64, value: u64) -> (r: u64)
        requires
            old(self).wf(),
            old(self).valid_id(tag),
            old(self).valid_id(value),
        ensures
            final(self).wf(),
            Self::same_heap(*old(self), *final(self)),
            old(self).exit == ExitStatus::Return ==> final(self).exit == (ExitStatus::Throw {
                tag,
                value,
            }),
            old(self).exit != ExitStatus::Return ==> final(self).exit == old(self).exit,
            r == tag,
    {
        if matches!(self.exit, ExitStatus::Return) {
            self.exit = ExitStatus::Throw { tag, value };
        }
        proof {
            HostState::lemma_same_heap_wf(*old(self), *self);
        }
        tag
    }

    /// Well-formedness carries over a transition whose heap is unchanged and
    /// whose registries still hold issued identifiers, whatever else moved.
    pub proof fn lemma_wf_parts(pre: HostState, post: HostState)
        requires
            pre.wf(),
            post.values@ == pre.values@,
            post.exit_wf(),
            forall|k: int| 0 <= k < post.refs@.len() ==> pre.valid_id(#[trigger] post.refs@[k]),
            forall|k: int|
                0 <= k < post.defined_errors@.len() ==> pre.error_entry_wf(
                    #[trigger] post.defined_errors@[k],
                ),
            forall|k: int|
                0 <= k < post.features@.len() ==> pre.is_symbol(#[trigger] post.features@[k]),
        ensures
            post.wf(),
    {
        assert forall|i: int| 0 <= i < post.values@.len() implies #[trigger] post.entry_wf(i) by {
            assert(pre.entry_wf(i));
        }
        assert forall|i: int, j: int|
            #![trigger post.values@[i], post.values@[j]]
            0 <= i < post.values@.len() && 0 <= j < post.values@.len() && i != j
                && post.values@[i] is Symbol && post.values@[j] is Symbol implies post.values@[i]
            ->Symbol_name@ != post.values@[j]->Symbol_name@ by {
            assert(pre.values@[i] is Symbol && pre.values@[j] is Symbol);
        }
        assert forall|k: int| 0 <= k < post.defined_errors@.len() implies post.error_entry_wf(
            #[trigger] post.defined_errors@[k],
        ) by {
            assert(pre.error_entry_wf(post.defined_errors@[k]));
        }
    }

    /// Well-formedness carries over pushing one value whose references point
    /// into the old heap and whose name, if it is a symbol, is new.
    pub proof fn lemma_push_wf(pre: HostState, post: HostState)
        requires
            pre.wf(),
            post.values@.len() == pre.values@.len() + 1,
            post.values@.drop_last() == pre.values@,
            match post.values@.last() {
                ValueData::Cons { car, cdr } => car < pre.values@.len() && cdr
                    < pre.values@.len(),
                ValueData::Func { behavior } => match behavior {
                    FuncBehavior::Returns { result } => result < pre.values@.len(),
                    FuncBehavior::Signals { symbol, data } => symbol < pre.values@.len() && data
                        < pre.values@.len(),
                    FuncBehavior::Throws { tag, value } => tag < pre.values@.len() && value
                        < pre.values@.len(),
                },
                ValueData::Symbol { name } => !pre.has_symbol(name@),
                _ => true,
            },
            post.exit == pre.exit,
            post.refs@ == pre.refs@,
            post.defined_errors@ == pre.defined_errors@,
            post.features@ == pre.features@,
        ensures
            post.wf(),
    {
        let n = pre.values@.len() as int;
        assert forall|i: int| 0 <= i < n implies post.values@[i] == pre.values@[i] by {
            assert(pre.values@[i] == post.values@.drop_last()[i]);
        }
        assert(post.base_symbols());
        assert forall|i: int| 0 <= i < post.values@.len() implies #[trigger] post.entry_wf(i) by {
            if i < n {
                assert(pre.entry_wf(i));
            } else {
                assert(post.values@[i] == post.values@.last());
            }
        }
        assert forall|i: int, j: int|
            #![trigger post.values@[i], post.values@[j]]
            0 <= i < post.values@.len() && 0 <= j < post.values@.len() && i != j
                && post.values@[i] is Symbol && post.values@[j] is Symbol implies post.values@[i]
            ->Symbol_name@ != post.values@[j]->Symbol_name@ by {
            if i < n && j < n {
                assert(pre.values@[i] is Symbol && pre.values@[j] is Symbol);
            } else if i == n {
                if post.values@[i]->Symbol_name@ == post.values@[j]->Symbol_name@ {
                    assert(pre.has_symbol(post.values@[i]->Symbol_name@));
                }
            } else {
                assert(j == n);
                if post.values@[i]->Symbol_name@ == post.values@[j]->Symbol_name@ {
                    assert(pre.has_symbol(post.values@[j]->Symbol_name@));
                }
            }
        }
        assert forall|k: int| 0 <= k < post.refs@.len() implies post.valid_id(
            #[trigger] post.refs@[k],
        ) by {
            assert(pre.valid_id(pre.refs@[k]));
        }
        assert forall|k: int| 0 <= k < post.defined_errors@.len() implies post.is_symbol(
            #[trigger] post.defined_errors@[k].0,
        ) by {
            assert(pre.is_symbol(pre.defined_errors@[k].0));
        }
        assert forall|k: int| 0 <= k < post.features@.len() implies post.is_symbol(
            #[trigger] post.features@[k],
        ) by {
            assert(pre.is_symbol(pre.features@[k]));
        }
    }

    /// The elements of a nil-terminated chain of cons cells, as raw
    /// identifiers in order.  Cells refer only to older values, so the walk
    /// ends; anything that is not a cons cell ends the chain.
    pub open spec fn list_elems(self, v: u64) -> Seq<u64>
        decreases v,
    {
        if self.valid_id(v) {
            match self.values@[v as int] {
                ValueData::Cons { car, cdr } => if cdr < v {
                    seq![car] + self.list_elems(cdr)
                } else {
                    seq![car]
                },
                _ => Seq::empty(),
            }
        } else {
            Seq::empty()
        }
    }

    /// A chain's elements do not change when the heap grows, since a chain
    /// only reaches values older than its head.
    pub proof fn lemma_list_elems_grow(h1: HostState, h2: HostState, v: u64)
        requires
            h1.values@.len() <= h2.values@.len(),
            h2.values@.subrange(0, h1.values@.len() as int) == h1.values@,
            (v as int) < h1.values@.len(),
        ensures
            h2.list_elems(v) == h1.list_elems(v),
        decreases v,
    {
        assert(h2.values@[v as int] == h2.values@.subrange(0, h1.values@.len() as int)[v as int]);
        match h1.values@[v as int] {
            ValueData::Cons { car, cdr } => {
                if cdr < v {
                    Self::lemma_list_elems_grow(h1, h2, cdr);
                }
            },
            _ => {},
        }
    }

    /// The transition pushed exactly one heap value and changed nothing else.
    pub open spec fn pushed_value(pre: HostState, post: HostState) -> bool {
        &&& post.exit == pre.exit
        &&& post.values@.len() == pre.values@.len() + 1
        &&& post.values@.drop_last() == pre.values@
        &&& post.refs@ == pre.refs@
        &&& post.defined_errors@ == pre.defined_errors@
        &&& post.features@ == pre.features@
        &&& post.messages@ == pre.messages@
    }

    /// Appends one value to the heap and returns its fresh identifier.
    fn push_value(&mut self, vd: ValueData) -> (v: u64)
        requires
            old(self).wf(),
            old(self).exit == ExitStatus::Return,
            match vd {
                ValueData::Cons { car, cdr } => old(self).valid_id(car) && old(self).valid_id(
                    cdr,
                ),
                ValueData::Func { behavior } => match behavior {
                    FuncBehavior::Returns { result } => old(self).valid_id(result),
                    FuncBehavior::Signals { symbol, data } => old(self).valid_id(symbol) && old(self).valid_id(data),
                    FuncBehavior::Throws { tag, value } => old(self).valid_id(tag) && old(self).valid_id(value),
                },
                ValueData::Symbol { name } => !old(self).has_symbol(name@),
                _ => true,
            },
        ensures
            final(self).wf(),
            Self::pushed_value(*old(self), *final(self)),
            final(self).values@.last() == vd,
            v as int == old(self).values@.len(),
    {
        let v = self.values.len() as u64;
        self.values.push(vd);
        proof {
            assert(self.values@.drop_last() =~= old(self).values@);
            HostState::lemma_push_wf(*old(self), *self);
        }
        v
    }

    /// Finds the symbol carrying this name, if any.
    fn lookup_symbol(&self, name: &String) -> (r: Option<u64>)
        requires
            self.wf(),
        ensures
            match r {
                Some(v) => self.is_symbol(v) && self.symbol_name(v) == name@,
                None => !self.has_symbol(name@),
            },
    {
        let n = self.values.len();
        let mut i: usize = 0;
        while i < n
            invariant
                self.wf(),
                n == self.values@.len(),
                i <= n,
                forall|k: int|
                    0 <= k < i ==> !((#[trigger] self.values@[k]) is Symbol
                        && self.values@[k]->Symbol_name@ == name@),
            decreases n - i,
        {
            match vstd::std_specs::vec::vec_index(&self.values, i) {
                ValueData::Symbol { name: nm } => {
                    if nm.eq(name) {
                        return Some(i as u64);
                    }
                },
                _ => {},
            }
            i = i + 1;
        }
        None
    }

    /// Interns a symbol: returns the existing symbol of that name, or issues
    /// a fresh one.  Two interns of one name thus return one identifier.
    pub fn intern_symbol(&mut self, name: &str) -> (v: u64)
        requires
            old(self).wf(),
        ensures
            final(self).wf(),
            old(self).exit != ExitStatus::Return ==> Self::unchanged(*old(self), *final(self))
                && v == NIL,
            old(self).exit == ExitStatus::Return ==> final(self).is_symbol(v) && final(self).symbol_name(v) == name@,
            old(self).exit == ExitStatus::Return && old(self).has_symbol(name@) ==> Self::unchanged(
                *old(self),
                *final(self),
            ),
            old(self).exit == ExitStatus::Return && !old(self).has_symbol(name@)
                ==> Self::pushed_value(*old(self), *final(self)) && v as int == old(self).values@.len(),
    {
        if !matches!(self.exit, ExitStatus::Return) {
            return NIL;
        }
        let owned: String = name.to_owned();
        match self.lookup_symbol(&owned) {
            Some(v) => v,
            None => self.push_value(ValueData::Symbol { name: owned }),
        }
    }

    /// Creates a string value.
    pub fn make_string(&mut self, text: &str) -> (v: u64)
        requires
            old(self).wf(),
        ensures
            final(self).wf(),
            old(self).exit != ExitStatus::Return ==> Self::unchanged(*old(self), *final(self))
                && v == NIL,
            old(self).exit == ExitStatus::Return ==> Self::pushed_value(*old(self), *final(self))
                && (final(self).values@.last() matches ValueData::Str { text: t } && t@ == text@)
                && v as int == old(self).values@.len(),
    {
        if !matches!(self.exit, ExitStatus::Return) {
            return NIL;
        }
        self.push_value(ValueData::Str { text: text.to_owned() })
    }

    /// Creates an integer value.
    pub fn make_integer(&mut self, n: i64) -> (v: u64)
        requires
            old(self).wf(),
        ensures
            final(self).wf(),
            old(self).exit != ExitStatus::Return ==> Self::unchanged(*old(self), *final(self))
                && v == NIL,
            old(self).exit == ExitStatus::Return ==> Self::pushed_value(*old(self), *final(self))
                && final(self).values@.last() == (ValueData::Int { n }) && v as int == old(self).values@.len(),
    {
        if !matches!(self.exit, ExitStatus::Return) {
            return NIL;
        }
        self.push_value(ValueData::Int { n })
    }

    /// Creates a wrapped native pointer value tagged with a type name.
    pub fn make_user_ptr(&mut self, type_tag: &str) -> (v: u64)
        requires
            old(self).wf(),
        ensures
            final(self).wf(),
            old(self).exit != ExitStatus::Return ==> Self::unchanged(*old(self), *final(self))
                && v == NIL,
            old(self).exit == ExitStatus::Return ==> Self::pushed_value(*old(self), *final(self))
                && (final(self).values@.last() matches ValueData::UserPtr { type_tag: t } && t@
                == type_tag@) && v as int == old(self).values@.len(),
    {
        if !matches!(self.exit, ExitStatus::Return) {
            return NIL;
        }
        self.push_value(ValueData::UserPtr { type_tag: type_tag.to_owned() })
    }

    /// Creates a callable value with the given observable behaviour.
    pub fn make_function(&mut self, behavior: FuncBehavior) -> (v: u64)
        requires
            old(self).wf(),
            match behavior {
                FuncBehavior::Returns { result } => old(self).valid_id(result),
                FuncBehavior::Signals { symbol, data } => old(self).valid_id(symbol) && old(self).valid_id(data),
                FuncBehavior::Throws { tag, value } => old(self).valid_id(tag) && old(self).valid_id(value),
            },
        ensures
            final(self).wf(),
            old(self).exit != ExitStatus::Return ==> Self::unchanged(*old(self), *final(self))
                && v == NIL,
            old(self).exit == ExitStatus::Return ==> Self::pushed_value(*old(self), *final(self))
                && final(self).values@.last() == (ValueData::Func { behavior }) && v as int == old(self).values@.len(),
    {
        if !matches!(self.exit, ExitStatus::Return) {
            return NIL;
        }
        self.push_value(ValueData::Func { behavior })
    }

    /// Creates a cons cell.
    pub fn cons_cell(&mut self, car: u64, cdr: u64) -> (v: u64)
        requires
            old(self).wf(),
            old(self).valid_id(car),
            old(self).valid_id(cdr),
        ensures
            final(self).wf(),
            old(self).exit != ExitStatus::Return ==> Self::unchanged(*old(self), *final(self))
                && v == NIL,
            old(self).exit == ExitStatus::Return ==> Self::pushed_value(*old(self), *final(self))
                && final(self).values@.last() == (ValueData::Cons { car, cdr }) && v as int == old(self).values@.len(),
    {
        if !matches!(self.exit, ExitStatus::Return) {
            return NIL;
        }
        self.push_value(ValueData::Cons { car, cdr })
    }

    /// Identity comparison, as the host sees it.
    pub fn eq_values(&self, a: u64, b: u64) -> (r: bool)
        ensures
            self.exit != ExitStatus::Return ==> r == false,
            self.exit == ExitStatus::Return ==> r == (a == b),
    {
        if !matches!(self.exit, ExitStatus::Return) {
            return false;
        }
        a == b
    }

    /// Whether the value is anything but `nil`.
    pub fn is_not_nil_value(&self, v: u64) -> (r: bool)
        ensures
            self.exit != ExitStatus::Return ==> r == false,
            self.exit == ExitStatus::Return ==> r == (v != NIL),
    {
        if !matches!(self.exit, ExitStatus::Return) {
            return false;
        }
        v != NIL
    }

    /// The type symbol the host reports for a heap value.
    pub open spec fn type_sym_of(vd: ValueData) -> u64 {
        match vd {
            ValueData::Symbol { .. } => SYM_TYPE_SYMBOL,
            ValueData::Str { .. } => SYM_TYPE_STRING,
            ValueData::Int { .. } => SYM_TYPE_INTEGER,
            ValueData::Cons { .. } => SYM_TYPE_CONS,
            ValueData::Func { .. } => SYM_TYPE_FUNCTION,
            ValueData::UserPtr { .. } => SYM_TYPE_USER_PTR,
        }
    }

    /// Reports the type of a value as one of the pre-interned type symbols.
    pub fn type_of_value(&self, v: u64) -> (t: u64)
        requires
            self.wf(),
            self.valid_id(v),
        ensures
            self.exit != ExitStatus::Return ==> t == NIL,
            self.exit == ExitStatus::Return ==> t == Self::type_sym_of(self.values@[v as int]),
            self.is_symbol(t) || t == NIL,
    {
        if !matches!(self.exit, ExitStatus::Return) {
            return NIL;
        }
        let n = self.values.len();
        proof {
            assert((v as int) < (n as int));
        }
        match vstd::std_specs::vec::vec_index(&self.values, v as usize) {
            ValueData::Symbol { .. } => SYM_TYPE_SYMBOL,
            ValueData::Str { .. } => SYM_TYPE_STRING,
            ValueData::Int { .. } => SYM_TYPE_INTEGER,
            ValueData::Cons { .. } => SYM_TYPE_CONS,
            ValueData::Func { .. } => SYM_TYPE_FUNCTION,
            ValueData::UserPtr { .. } => SYM_TYPE_USER_PTR,
        }
    }

    /// Reads an integer value back out.  On any other kind of value the host
    /// leaves a wrong-type-argument signal pending.
    pub fn extract_integer(&mut self, v: u64) -> (r: i64)
        requires
            old(self).wf(),
            old(self).valid_id(v),
        ensures
            final(self).wf(),
            old(self).exit != ExitStatus::Return ==> Self::unchanged(*old(self), *final(self))
                && r == 0,
            old(self).exit == ExitStatus::Return ==> (old(self).values@[v as int] matches
                ValueData::Int { n } ==> Self::unchanged(*old(self), *final(self)) && r == n),
            old(self).exit == ExitStatus::Return && !(old(self).values@[v as int] is Int)
                ==> Self::same_heap(*old(self), *final(self)) && final(self).exit
                == (ExitStatus::Signal { symbol: SYM_WRONG_TYPE_ARGUMENT, data: NIL }) && r == 0,
    {
        if !matches!(self.exit, ExitStatus::Return) {
            return 0;
        }
        let n = self.values.len();
        proof {
            assert((v as int) < (n as int));
        }
        match vstd::std_specs::vec::vec_index(&self.values, v as usize) {
            ValueData::Int { n } => *n,
            _ => {
                self.non_local_exit_signal(SYM_WRONG_TYPE_ARGUMENT, NIL);
                0
            },
        }
    }

    /// Reads a string value's text back out.  On any other kind of value the
    /// host leaves a wrong-type-argument signal pending.
    pub fn copy_string_contents(&mut self, v: u64) -> (r: String)
        requires
            old(self).wf(),
            old(self).valid_id(v),
        ensures
            final(self).wf(),
            old(self).exit != ExitStatus::Return ==> Self::unchanged(*old(self), *final(self))
                && r@.len() == 0,
            old(self).exit == ExitStatus::Return ==> (old(self).values@[v as int] matches
                ValueData::Str { text } ==> Self::unchanged(*old(self), *final(self)) && r@
                == text@),
            old(self).exit == ExitStatus::Return && !(old(self).values@[v as int] is Str)
                ==> Self::same_heap(*old(self), *final(self)) && final(self).exit
                == (ExitStatus::Signal { symbol: SYM_WRONG_TYPE_ARGUMENT, data: NIL }) && r@.len()
                == 0,
    {
        if !matches!(self.exit, ExitStatus::Return) {
            return String::new();
        }
        let n = self.values.len();
        proof {
            assert((v as int) < (n as int));
        }
        match vstd::std_specs::vec::vec_index(&self.values, v as usize) {
            ValueData::Str { text } => text.clone(),
            _ => {
                self.non_local_exit_signal(SYM_WRONG_TYPE_ARGUMENT, NIL);
                String::new()
            },
        }
    }

    /// Calls a function value.  The model reduces a function to its
    /// observable behaviour: return a value, or leave a signal or a throw
    /// pending.  Calling anything else leaves an invalid-function signal.
    pub fn funcall(&mut self, f: u64) -> (r: u64)
        requires
            old(self).wf(),
            old(self).valid_id(f),
        ensures
            final(self).wf(),
            old(self).exit != ExitStatus::Return ==> Self::unchanged(*old(self), *final(self))
                && r == NIL,
            old(self).exit == ExitStatus::Return ==> match old(self).values@[f as int] {
                ValueData::Func { behavior } => match behavior {
                    FuncBehavior::Returns { result } => Self::unchanged(*old(self), *final(self))
                        && r == result && final(self).valid_id(r),
                    FuncBehavior::Signals { symbol, data } => Self::same_heap(
                        *old(self),
                        *final(self),
                    ) && final(self).exit == (ExitStatus::Signal { symbol, data }) && r == NIL,
                    FuncBehavior::Throws { tag, value } => Self::same_heap(
                        *old(self),
                        *final(self),
                    ) && final(self).exit == (ExitStatus::Throw { tag, value }) && r == NIL,
                },
                _ => Self::same_heap(*old(self), *final(self)) && final(self).exit
                    == (ExitStatus::Signal { symbol: SYM_INVALID_FUNCTION, data: NIL }) && r
                    == NIL,
            },
    {
        if !matches!(self.exit, ExitStatus::Return) {
            return NIL;
        }
        let n = self.values.len();
        proof {
            assert((f as int) < (n as int));
            assert(self.entry_wf(f as int));
        }
        match vstd::std_specs::vec::vec_index(&self.values, f as usize) {
            ValueData::Func { behavior } => match *behavior {
                FuncBehavior::Returns { result } => result,
                FuncBehavior::Signals { symbol, data } => {
                    self.non_local_exit_signal(symbol, data);
                    NIL
                },
                FuncBehavior::Throws { tag, value } => {
                    self.non_local_exit_throw(tag, value);
                    NIL
                },
            },
            _ => {
                self.non_local_exit_signal(SYM_INVALID_FUNCTION, NIL);
                NIL
            },
        }
    }

    /// Truncating integer division, as the host's division subroutine
    /// computes it: the magnitude quotient with the usual sign rule.
    pub open spec fn trunc_div(x: int, y: int) -> int
        recommends
            y != 0,
    {
        let ax = if x >= 0 {
            x
        } else {
            -x
        };
        let ay = if y >= 0 {
            y
        } else {
            -y
        };
        let q = ax / ay;
        if (x >= 0) == (y >= 0) {
            q
        } else {
            -q
        }
    }

    /// The host's integer division subroutine.  Dividing by zero leaves an
    /// arithmetic-error signal pending; so does the one quotient that the
    /// host's integer range cannot hold.  Anything but two integers leaves
    /// a wrong-type-argument signal pending.
    pub fn div_int(&mut self, a: u64, b: u64) -> (r: u64)
        requires
            old(self).wf(),
            old(self).valid_id(a),
            old(self).valid_id(b),
        ensures
            final(self).wf(),
            old(self).exit != ExitStatus::Return ==> Self::unchanged(*old(self), *final(self))
                && r == NIL,
            old(self).exit == ExitStatus::Return ==> match (
                old(self).values@[a as int],
                old(self).values@[b as int],
            ) {
                (ValueData::Int { n: x }, ValueData::Int { n: y }) => {
                    if y == 0 || (x == i64::MIN && y == -1) {
                        Self::same_heap(*old(self), *final(self)) && final(self).exit
                            == (ExitStatus::Signal { symbol: SYM_ARITH_ERROR, data: NIL }) && r
                            == NIL
                    } else {
                        Self::pushed_value(*old(self), *final(self)) && final(self).values@.last()
                            == (ValueData::Int { n: Self::trunc_div(x as int, y as int) as i64 })
                            && r as int == old(self).values@.len()
                    }
                },
                _ => Self::same_heap(*old(self), *final(self)) && final(self).exit
                    == (ExitStatus::Signal { symbol: SYM_WRONG_TYPE_ARGUMENT, data: NIL }) && r
                    == NIL,
            },
    {
        if !matches!(self.exit, ExitStatus::Return) {
            return NIL;
        }
        let n = self.values.len();
        proof {
            assert((a as int) < (n as int));
            assert((b as int) < (n as int));
        }
        let x: i64 = match vstd::std_specs::vec::vec_index(&self.values, a as usize) {
            ValueData::Int { n } => *n,
            _ => {
                self.non_local_exit_signal(SYM_WRONG_TYPE_ARGUMENT, NIL);
                return NIL;
            },
        };
        let y: i64 = match vstd::std_specs::vec::vec_index(&self.values, b as usize) {
            ValueData::Int { n } => *n,
            _ => {
                self.non_local_exit_signal(SYM_WRONG_TYPE_ARGUMENT, NIL);
                return NIL;
            },
        };
        if y == 0 || (x == i64::MIN && y == -1) {
            self.non_local_exit_signal(SYM_ARITH_ERROR, NIL);
            return NIL;
        }
        let ax: u64 = if x >= 0 {
            x as u64
        } else {
            ((-(x + 1)) as u64) + 1
        };
        let ay: u64 = if y >= 0 {
            y as u64
        } else {
            ((-(y + 1)) as u64) + 1
        };
        let q: u64 = ax / ay;
        let same_sign: bool = (x >= 0) == (y >= 0);
        proof {
            assert(ax as int == (if (x as int) >= 0 {
                x as int
            } else {
                -(x as int)
            }));
            assert(ay as int == (if (y as int) >= 0 {
                y as int
            } else {
                -(y as int)
            }));
            if !same_sign && q == 9223372036854775808u64 {
                assert((x as int) == -9223372036854775808 && (y as int) == 1) by {
                    assert(q as int == ax as int / ay as int);
                    assert(ax as int <= 9223372036854775808);
                    assert(ay as int >= 1);
                    assert(ax as int / ay as int <= ax as int) by (nonlinear_arith)
                        requires
                            ay as int >= 1,
                            ax as int >= 0,
                    ;
                    assert(ax as int == 9223372036854775808 && ay as int == 1) by (
                    nonlinear_arith)
                        requires
                            q as int == ax as int / ay as int,
                            q as int == 9223372036854775808,
                            ax as int <= 9223372036854775808,
                            ay as int >= 1,
                            ax as int >= 0,
                    ;
                }
            }
            if same_sign {
                assert(q as int <= 9223372036854775807) by {
                    if x >= 0 {
                        assert(ax as int <= 9223372036854775807);
                        assert(q as int <= ax as int) by (nonlinear_arith)
                            requires
                                q as int == ax as int / ay as int,
                                ay as int >= 1,
                                ax as int >= 0,
                        ;
                    } else {
                        assert(y < 0);
                        if x == i64::MIN {
                            assert(ay as int >= 2);
                            assert(q as int <= ax as int / 2) by (nonlinear_arith)
                                requires
                                    q as int == ax as int / ay as int,
                                    ay as int >= 2,
                                    ax as int >= 0,
                            ;
                        } else {
                            assert(ax as int <= 9223372036854775807);
                            assert(q as int <= ax as int) by (nonlinear_arith)
                                requires
                                    q as int == ax as int / ay as int,
                                    ay as int >= 1,
                                    ax as int >= 0,
                            ;
                        }
                    }
                }
            }
        }
        let quotient: i64 = if same_sign {
            q as i64
        } else {
            if q == 9223372036854775808u64 {
                i64::MIN
            } else {
                -(q as i64)
            }
        };
        proof {
            assert(quotient as int == Self::trunc_div(x as int, y as int));
        }
        self.push_value(ValueData::Int { n: quotient })
    }

    /// Reads the native type tag of a wrapped native pointer.  On any other
    /// kind of value the host leaves a wrong-type-argument signal pending.
    pub fn get_user_ptr_tag(&mut self, v: u64) -> (r: String)
        requires
            old(self).wf(),
            old(self).valid_id(v),
        ensures
            final(self).wf(),
            old(self).exit != ExitStatus::Return ==> Self::unchanged(*old(self), *final(self))
                && r@.len() == 0,
            old(self).exit == ExitStatus::Return ==> (old(self).values@[v as int] matches
                ValueData::UserPtr { type_tag } ==> Self::unchanged(*old(self), *final(self))
                && r@ == type_tag@),
            old(self).exit == ExitStatus::Return && !(old(self).values@[v as int] is UserPtr)
                ==> Self::same_heap(*old(self), *final(self)) && final(self).exit
                == (ExitStatus::Signal { symbol: SYM_WRONG_TYPE_ARGUMENT, data: NIL }) && r@.len()
                == 0,
    {
        if !matches!(self.exit, ExitStatus::Return) {
            return String::new();
        }
        let n = self.values.len();
        proof {
            assert((v as int) < (n as int));
        }
        match vstd::std_specs::vec::vec_index(&self.values, v as usize) {
            ValueData::UserPtr { type_tag } => type_tag.clone(),
            _ => {
                self.non_local_exit_signal(SYM_WRONG_TYPE_ARGUMENT, NIL);
                String::new()
            },
        }
    }

    /// Whether a symbol has been declared as an error symbol.
    pub fn error_defined_exec(&self, sym: u64) -> (b: bool)
        requires
            self.wf(),
        ensures
            b == self.error_defined(sym),
    {
        let n = self.defined_errors.len();
        let mut i: usize = 0;
        while i < n
            invariant
                n == self.defined_errors@.len(),
                i <= n,
                forall|k: int| 0 <= k < i ==> (#[trigger] self.defined_errors@[k]).0 != sym,
            decreases n - i,
        {
            if vstd::std_specs::vec::vec_index(&self.defined_errors, i).0 == sym {
                return true;
            }
            i = i + 1;
        }
        false
    }

    /// Declares an error symbol with its message, after checking that every
    /// parent is itself a declared error symbol.  An unknown parent leaves an
    /// error signal pending and declares nothing.
    pub fn define_error_symbol(&mut self, name_sym: u64, message: &str, parents: &Vec<u64>) -> (r:
        u64)
        requires
            old(self).wf(),
            old(self).is_symbol(name_sym),
            forall|k: int| 0 <= k < parents@.len() ==> old(self).is_symbol(#[trigger] parents@[k]),
        ensures
            final(self).wf(),
            old(self).exit != ExitStatus::Return ==> Self::unchanged(*old(self), *final(self))
                && r == NIL,
            old(self).exit == ExitStatus::Return && old(self).all_errors_defined(parents@) ==> {
                &&& final(self).exit == old(self).exit
                &&& final(self).values@ == old(self).values@
                &&& final(self).refs@ == old(self).refs@
                &&& final(self).features@ == old(self).features@
                &&& final(self).messages@ == old(self).messages@
                &&& final(self).defined_errors@.len() == old(self).defined_errors@.len() + 1
                &&& final(self).defined_errors@.drop_last() == old(self).defined_errors@
                &&& final(self).defined_errors@.last().0 == name_sym
                &&& final(self).defined_errors@.last().1@ == message@
                &&& final(self).defined_errors@.last().2@ == parents@
                &&& r == name_sym
            },
            old(self).exit == ExitStatus::Return && !old(self).all_errors_defined(parents@)
                ==> Self::same_heap(*old(self), *final(self)) && final(self).exit
                == (ExitStatus::Signal { symbol: SYM_ERROR, data: NIL }) && r == NIL,
    {
        if !matches!(self.exit, ExitStatus::Return) {
            return NIL;
        }
        let n = parents.len();
        let mut i: usize = 0;
        while i < n
            invariant
                self == old(self),
                self.wf(),
                n == parents@.len(),
                i <= n,
                self.exit == ExitStatus::Return,
                forall|k: int| 0 <= k < i ==> self.error_defined(#[trigger] parents@[k]),
            decreases n - i,
        {
            let p = *vstd::std_specs::vec::vec_index(parents, i);
            if !self.error_defined_exec(p) {
                proof {
                    assert(!self.all_errors_defined(parents@));
                }
                self.non_local_exit_signal(SYM_ERROR, NIL);
                return NIL;
            }
            i = i + 1;
        }
        let np = parents.len();
        let mut recorded: Vec<u64> = Vec::new();
        let mut j: usize = 0;
        while j < np
            invariant
                self == old(self),
                np == parents@.len(),
                j <= np,
                recorded@.len() == j,
                forall|k: int| 0 <= k < j ==> recorded@[k] == parents@[k],
            decreases np - j,
        {
            recorded.push(*vstd::std_specs::vec::vec_index(parents, j));
            j = j + 1;
        }
        proof {
            assert(recorded@ =~= parents@);
        }
        self.defined_errors.push((name_sym, message.to_owned(), recorded));
        proof {
            assert(self.defined_errors@.drop_last() =~= old(self).defined_errors@);
            assert forall|k: int|
                0 <= k < self.defined_errors@.len() implies old(self).error_entry_wf(
                (#[trigger] self.defined_errors@[k]),
            ) by {
                if k < old(self).defined_errors@.len() {
                    assert(old(self).error_entry_wf(old(self).defined_errors@[k]));
                } else {
                    assert(self.defined_errors@[k] == self.defined_errors@.last());
                }
            }
            HostState::lemma_wf_parts(*old(self), *self);
        }
        name_sym
    }

    /// Records a feature as provided.
    pub fn provide_feature(&mut self, sym: u64) -> (r: u64)
        requires
            old(self).wf(),
            old(self).is_symbol(sym),
        ensures
            final(self).wf(),
            old(self).exit != ExitStatus::Return ==> Self::unchanged(*old(self), *final(self))
                && r == NIL,
            old(self).exit == ExitStatus::Return ==> {
                &&& final(self).exit == old(self).exit
                &&& final(self).values@ == old(self).values@
                &&& final(self).refs@ == old(self).refs@
                &&& final(self).defined_errors@ == old(self).defined_errors@
                &&& final(self).messages@ == old(self).messages@
                &&& final(self).features@ == old(self).features@.push(sym)
                &&& r == sym
            },
    {
        if !matches!(self.exit, ExitStatus::Return) {
            return NIL;
        }
        self.features.push(sym);
        proof {
            assert forall|k: int| 0 <= k < self.features@.len() implies old(self).is_symbol(
                #[trigger] self.features@[k],
            ) by {
                if k < old(self).features@.len() {
                    assert(old(self).is_symbol(old(self).features@[k]));
                }
            }
            HostState::lemma_wf_parts(*old(self), *self);
        }
        sym
    }

    /// Shows a message: logs its text and returns it as a fresh string value.
    pub fn show_message(&mut self, text: &str) -> (v: u64)
        requires
            old(self).wf(),
        ensures
            final(self).wf(),
            old(self).exit != ExitStatus::Return ==> Self::unchanged(*old(self), *final(self))
                && v == NIL,
            old(self).exit == ExitStatus::Return ==> {
                &&& final(self).exit == old(self).exit
                &&& final(self).refs@ == old(self).refs@
                &&& final(self).defined_errors@ == old(self).defined_errors@
                &&& final(self).features@ == old(self).features@
                &&& final(self).values@.len() == old(self).values@.len() + 1
                &&& final(self).values@.drop_last() == old(self).values@
                &&& (final(self).values@.last() matches ValueData::Str { text: t } && t@ == text@)
                &&& final(self).messages@.len() == old(self).messages@.len() + 1
                &&& final(self).messages@.drop_last() == old(self).messages@
                &&& final(self).messages@.last()@ == text@
                &&& v as int == old(self).values@.len()
            },
    {
        if !matches!(self.exit, ExitStatus::Return) {
            return NIL;
        }
        self.messages.push(text.to_owned());
        proof {
            assert(self.messages@.drop_last() =~= old(self).messages@);
            HostState::lemma_same_heap_wf(*old(self), *self);
        }
        self.push_value(ValueData::Str { text: text.to_owned() })
    }

    /// Roots a value against collection; in this model the rooted reference
    /// is the value itself, counted once per call.
    pub fn make_global_ref(&mut self, v: u64) -> (r: u64)
        requires
            old(self).wf(),
            old(self).valid_id(v),
        ensures
            final(self).wf(),
            old(self).exit != ExitStatus::Return ==> Self::unchanged(*old(self), *final(self))
                && r == NIL,
            old(self).exit == ExitStatus::Return ==> {
                &&& final(self).exit == old(self).exit
                &&& final(self).values@ == old(self).values@
                &&& final(self).defined_errors@ == old(self).defined_errors@
                &&& final(self).features@ == old(self).features@
                &&& final(self).messages@ == old(self).messages@
                &&& final(self).refs@ == old(self).refs@.push(v)
                &&& r == v
            },
    {
        if !matches!(self.exit, ExitStatus::Return) {
            return NIL;
        }
        self.refs.push(v);
        proof {
            assert forall|k: int| 0 <= k < self.refs@.len() implies old(self).valid_id(
                #[trigger] self.refs@[k],
            ) by {
                if k < old(self).refs@.len() {
                    assert(old(self).valid_id(old(self).refs@[k]));
                }
            }
            HostState::lemma_wf_parts(*old(self), *self);
        }
        v
    }

    /// Releases one outstanding root of the value.  Requires that no exit is
    /// pending: while one is, the call would be short-circuited, which is
    /// exactly why teardown clears a pending exit before releasing.
    pub fn free_global_ref(&mut self, r: u64)
        requires
            old(self).wf(),
            old(self).exit == ExitStatus::Return,
            old(self).refs@.contains(r),
        ensures
            final(self).wf(),
            final(self).exit == old(self).exit,
            final(self).values@ == old(self).values@,
            final(self).defined_errors@ == old(self).defined_errors@,
            final(self).features@ == old(self).features@,
            final(self).messages@ == old(self).messages@,
            final(self).refs@.len() == old(self).refs@.len() - 1,
            final(self).refs@.to_multiset() == old(self).refs@.to_multiset().remove(r),
    {
        let n = self.refs.len();
        let mut i: usize = 0;
        while i < n && *vstd::std_specs::vec::vec_index(&self.refs, i) != r
            invariant
                self == old(self),
                n == self.refs@.len(),
                i <= n,
                self.refs@.contains(r),
                forall|k: int| 0 <= k < i ==> self.refs@[k] != r,
            decreases n - i,
        {
            i = i + 1;
        }
        proof {
            if i == n {
                let w = choose|w: int| 0 <= w < self.refs@.len() && self.refs@[w] == r;
                assert(self.refs@[w] != r);
            }
            assert(self.refs@[i as int] == r);
        }
        self.refs.remove(i);
        proof {
            broadcast use vstd::seq_lib::group_to_multiset_ensures;

            assert(self.refs@.to_multiset() =~= old(self).refs@.to_multiset().remove(r));
            assert forall|k: int| 0 <= k < self.refs@.len() implies old(self).valid_id(
                #[trigger] self.refs@[k],
            ) by {
                if k < i {
                    assert(self.refs@[k] == old(self).refs@[k]);
                    assert(old(self).valid_id(old(self).refs@[k]));
                } else {
                    assert(self.refs@[k] == old(self).refs@[k + 1]);
                    assert(old(self).valid_id(old(self).refs@[k + 1]));
                }
            }
            HostState::lemma_wf_parts(*old(self), *self);
        }
    }
}

} // verus!
