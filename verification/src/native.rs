//! The native value types, the sentinel classifier — a negative value stands
//! for "missing", zero and positive values are valid — and the sequence-level
//! model of what a batch of values builds.

use vstd::prelude::*;

verus! {

/// A fixed-width signed integer, the smallest unit a builder processes.
pub trait Native: Copy + Sized {
    /// The mathematical value of this native value.
    spec fn as_int(self) -> int;

    /// The type's own zero value.
    spec fn zero() -> Self;

    /// Compares the value against the type's own zero.
    fn lt_zero(self) -> (r: bool)
        ensures
            r == (self.as_int() < 0),
    ;
}

impl Native for i8 {
    open spec fn as_int(self) -> int {
        self as int
    }

    open spec fn zero() -> i8 {
        0
    }

    fn lt_zero(self) -> (r: bool) {
        self < 0
    }
}

impl Native for i16 {
    open spec fn as_int(self) -> int {
        self as int
    }

    open spec fn zero() -> i16 {
        0
    }

    fn lt_zero(self) -> (r: bool) {
        self < 0
    }
}

impl Native for i32 {
    open spec fn as_int(self) -> int {
        self as int
    }

    open spec fn zero() -> i32 {
        0
    }

    fn lt_zero(self) -> (r: bool) {
        self < 0
    }
}

impl Native for i64 {
    open spec fn as_int(self) -> int {
        self as int
    }

    open spec fn zero() -> i64 {
        0
    }

    fn lt_zero(self) -> (r: bool) {
        self < 0
    }
}

/// What `negative2none` returns: `None` exactly when the value is negative.
pub open spec fn negative2none_spec<N: Native>(natural: N) -> Option<N> {
    if natural.as_int() < 0 {
        None
    } else {
        Some(natural)
    }
}

/// The entry that one optional native value contributes to an array: an
/// absent value stays null, and a present but negative value is still
/// classified missing, so either signal suffices for a null.
pub open spec fn opt_entry_spec<N: Native>(o: Option<N>) -> Option<N> {
    match o {
        None => None,
        Some(v) => negative2none_spec(v),
    }
}

/// The entries that a sequence of native values builds: one per value, in
/// order, null exactly at the negative values.
pub open spec fn entries_of<N: Native>(s: Seq<N>) -> Seq<Option<N>> {
    s.map(|_i: int, v: N| negative2none_spec(v))
}

/// The entries that a sequence of optional native values builds: one per
/// element, in order, null at the absent and at the present negative ones.
pub open spec fn opt_entries_of<N: Native>(s: Seq<Option<N>>) -> Seq<Option<N>> {
    s.map(|_i: int, o: Option<N>| opt_entry_spec(o))
}

/// The number of negative values in a sequence.
pub open spec fn count_negative<N: Native>(s: Seq<N>) -> nat
    decreases s.len(),
{
    if s.len() == 0 {
        0
    } else {
        count_negative(s.drop_last()) + (if s.last().as_int() < 0 {
            1nat
        } else {
            0nat
        })
    }
}

/// The number of elements of an optional sequence that build a null: the
/// absent ones and the present negative ones.
pub open spec fn count_missing<N: Native>(s: Seq<Option<N>>) -> nat
    decreases s.len(),
{
    if s.len() == 0 {
        0
    } else {
        count_missing(s.drop_last()) + (if opt_entry_spec(s.last()) is None {
            1nat
        } else {
            0nat
        })
    }
}

/// The number of null entries in a sequence of optional values.
pub open spec fn count_absent<N>(e: Seq<Option<N>>) -> nat
    decreases e.len(),
{
    if e.len() == 0 {
        0
    } else {
        count_absent(e.drop_last()) + (if e.last() is None {
            1nat
        } else {
            0nat
        })
    }
}

/// The underlying value buffer that a sequence of entries is stored as: the
/// value itself at valid slots, the type's zero at null slots.
pub open spec fn buffer_of<N: Native>(e: Seq<Option<N>>) -> Seq<N> {
    e.map(
        |_i: int, o: Option<N>|
            match o {
                Some(v) => v,
                None => N::zero(),
            },
    )
}

/// Returns true iff the value is classified "missing", that is, negative.
pub fn is_negative<N: Native>(natural: N) -> (r: bool)
    ensures
        r == (natural.as_int() < 0),
{
    natural.lt_zero()
}

/// Turns the sentinel convention into an explicit marker: a negative value
/// becomes `None`, any other value is kept as `Some`.
pub fn negative2none<N: Native>(natural: N) -> (r: Option<N>)
    ensures
        r == negative2none_spec(natural),
        r is None <==> natural.as_int() < 0,
{
    if natural.lt_zero() {
        None
    } else {
        Some(natural)
    }
}

/// Classifies a value that is already optional: an absent input stays
/// absent, and a present value still goes through the sign convention, so a
/// present negative value comes out absent as well.
pub fn opt_negative2none<N: Native>(natural: Option<N>) -> (r: Option<N>)
    ensures
        r == opt_entry_spec(natural),
{
    match natural {
        None => None,
        Some(v) => negative2none(v),
    }
}

/// The null count of the entries that a sequence of native values builds
/// equals the number of negative values in the sequence.
pub proof fn lemma_count_entries<N: Native>(s: Seq<N>)
    ensures
        count_absent(entries_of(s)) == count_negative(s),
        entries_of(s).len() == s.len(),
    decreases s.len(),
{
    if s.len() == 0 {
        assert(entries_of(s) =~= Seq::<Option<N>>::empty());
    } else {
        lemma_count_entries(s.drop_last());
        assert(entries_of(s).drop_last() =~= entries_of(s.drop_last()));
        assert(entries_of(s).last() == negative2none_spec(s.last()));
    }
}

/// The null count of the entries that a sequence of optional native values
/// builds equals the number of its absent or present-negative elements.
pub proof fn lemma_count_opt_entries<N: Native>(s: Seq<Option<N>>)
    ensures
        count_absent(opt_entries_of(s)) == count_missing(s),
        opt_entries_of(s).len() == s.len(),
    decreases s.len(),
{
    if s.len() == 0 {
        assert(opt_entries_of(s) =~= Seq::<Option<N>>::empty());
    } else {
        lemma_count_opt_entries(s.drop_last());
        assert(opt_entries_of(s).drop_last() =~= opt_entries_of(s.drop_last()));
        assert(opt_entries_of(s).last() == opt_entry_spec(s.last()));
    }
}

} // verus!
