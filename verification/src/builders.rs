//! The null-aware appenders and the batch builders: they drive native values,
//! or optional native values, through the sentinel classifier into a
//! pre-sized columnar builder and finish it into an immutable array.

use vstd::prelude::*;

use crate::columnar::ArrayI16;
use crate::columnar::ArrayI32;
use crate::columnar::ArrayI64;
use crate::columnar::ArrayI8;
use crate::columnar::Columnar;
use crate::columnar::array16_entries;
use crate::columnar::array32_entries;
use crate::columnar::array64_entries;
use crate::columnar::array8_entries;
use crate::native::count_absent;
use crate::native::count_missing;
use crate::native::count_negative;
use crate::native::entries_of;
use crate::native::lemma_count_entries;
use crate::native::lemma_count_opt_entries;
use crate::native::negative2none;
use crate::native::negative2none_spec;
use crate::native::opt_entries_of;
use crate::native::opt_entry_spec;

verus! {

/// The capacity hint used when the caller does not know the expected size in
/// advance. It only affects allocation efficiency, never the result.
pub const CAPACITY_DEFAULT: usize = 1024;

/// Appends one native value to the builder: a null slot if the value is
/// negative, the value itself otherwise.
pub fn natural2builder<N: Columnar>(natural: N, bldr: &mut N::Builder)
    ensures
        N::builder_entries(*final(bldr)) == N::builder_entries(*old(bldr)).push(
            negative2none_spec(natural),
        ),
{
    let o: Option<N> = negative2none(natural);
    match o {
        None => N::builder_append_null(bldr),
        Some(i) => N::builder_append_value(bldr, i),
    }
}

/// Appends one optional native value to the builder: a null slot if the
/// value is absent or present but negative, the value itself otherwise.
pub fn opt2builder<N: Columnar>(natural: Option<N>, bldr: &mut N::Builder)
    ensures
        N::builder_entries(*final(bldr)) == N::builder_entries(*old(bldr)).push(
            opt_entry_spec(natural),
        ),
{
    let o: Option<N> = match natural {
        None => None,
        Some(v) => negative2none(v),
    };
    match o {
        None => N::builder_append_null(bldr),
        Some(i) => N::builder_append_value(bldr, i),
    }
}

/// Builds an array from a sequence of native values: one entry per value, in
/// order, null exactly at the negative values. The capacity is a
/// pre-allocation hint only.
pub fn natural2array<N: Columnar>(naturals: &Vec<N>, cap: usize) -> (a: N::Array)
    ensures
        N::array_entries(a) == entries_of(naturals@),
        N::array_entries(a).len() == naturals@.len(),
        count_absent(N::array_entries(a)) == count_negative(naturals@),
{
    let mut bldr: N::Builder = N::builder_with_capacity(cap);
    let n: usize = naturals.len();
    let mut i: usize = 0;
    while i < n
        invariant
            i <= n,
            n == naturals@.len(),
            N::builder_entries(bldr) == entries_of(naturals@.take(i as int)),
        decreases n - i,
    {
        natural2builder(naturals[i], &mut bldr);
        proof {
            assert(entries_of(naturals@.take(i + 1)) =~= entries_of(naturals@.take(i as int)).push(
                negative2none_spec(naturals@[i as int]),
            ));
        }
        i = i + 1;
    }
    proof {
        assert(naturals@.take(n as int) =~= naturals@);
        lemma_count_entries(naturals@);
    }
    N::builder_finish(bldr)
}

/// Builds an array from a sequence of optional native values: one entry per
/// element, in order, null at the absent and at the present negative ones.
/// The capacity is a pre-allocation hint only.
pub fn opts2array<N: Columnar>(naturals: &Vec<Option<N>>, cap: usize) -> (a: N::Array)
    ensures
        N::array_entries(a) == opt_entries_of(naturals@),
        N::array_entries(a).len() == naturals@.len(),
        count_absent(N::array_entries(a)) == count_missing(naturals@),
{
    let mut bldr: N::Builder = N::builder_with_capacity(cap);
    let n: usize = naturals.len();
    let mut i: usize = 0;
    while i < n
        invariant
            i <= n,
            n == naturals@.len(),
            N::builder_entries(bldr) == opt_entries_of(naturals@.take(i as int)),
        decreases n - i,
    {
        opt2builder(naturals[i], &mut bldr);
        proof {
            assert(opt_entries_of(naturals@.take(i + 1)) =~= opt_entries_of(naturals@.take(i as int)).push(
                opt_entry_spec(naturals@[i as int]),
            ));
        }
        i = i + 1;
    }
    proof {
        assert(naturals@.take(n as int) =~= naturals@);
        lemma_count_opt_entries(naturals@);
    }
    N::builder_finish(bldr)
}

/// `natural2array` with the default capacity hint.
pub fn natural2array_default<N: Columnar>(naturals: &Vec<N>) -> (a: N::Array)
    ensures
        N::array_entries(a) == entries_of(naturals@),
        N::array_entries(a).len() == naturals@.len(),
        count_absent(N::array_entries(a)) == count_negative(naturals@),
{
    natural2array(naturals, CAPACITY_DEFAULT)
}

/// `opts2array` with the default capacity hint.
pub fn opts2array_default<N: Columnar>(naturals: &Vec<Option<N>>) -> (a: N::Array)
    ensures
        N::array_entries(a) == opt_entries_of(naturals@),
        N::array_entries(a).len() == naturals@.len(),
        count_absent(N::array_entries(a)) == count_missing(naturals@),
{
    opts2array(naturals, CAPACITY_DEFAULT)
}

/// Converts the natural numbers to an array.
pub fn nat2arr8i(naturals: &Vec<i8>) -> (a: ArrayI8)
    ensures
        array8_entries(a) == entries_of(naturals@),
        array8_entries(a).len() == naturals@.len(),
        count_absent(array8_entries(a)) == count_negative(naturals@),
{
    natural2array_default(naturals)
}

/// Converts the natural numbers to an array.
pub fn nat2arr16i(naturals: &Vec<i16>) -> (a: ArrayI16)
    ensures
        array16_entries(a) == entries_of(naturals@),
        array16_entries(a).len() == naturals@.len(),
        count_absent(array16_entries(a)) == count_negative(naturals@),
{
    natural2array_default(naturals)
}

/// Converts the natural numbers to an array.
pub fn nat2arr32i(naturals: &Vec<i32>) -> (a: ArrayI32)
    ensures
        array32_entries(a) == entries_of(naturals@),
        array32_entries(a).len() == naturals@.len(),
        count_absent(array32_entries(a)) == count_negative(naturals@),
{
    natural2array_default(naturals)
}

/// Converts the natural numbers to an array.
pub fn nat2arr64i(naturals: &Vec<i64>) -> (a: ArrayI64)
    ensures
        array64_entries(a) == entries_of(naturals@),
        array64_entries(a).len() == naturals@.len(),
        count_absent(array64_entries(a)) == count_negative(naturals@),
{
    natural2array_default(naturals)
}

/// Converts the optionals to an array.
pub fn opt2arr8i(naturals: &Vec<Option<i8>>) -> (a: ArrayI8)
    ensures
        array8_entries(a) == opt_entries_of(naturals@),
        array8_entries(a).len() == naturals@.len(),
        count_absent(array8_entries(a)) == count_missing(naturals@),
{
    opts2array_default(naturals)
}

/// Converts the optionals to an array.
pub fn opt2arr16i(naturals: &Vec<Option<i16>>) -> (a: ArrayI16)
    ensures
        array16_entries(a) == opt_entries_of(naturals@),
        array16_entries(a).len() == naturals@.len(),
        count_absent(array16_entries(a)) == count_missing(naturals@),
{
    opts2array_default(naturals)
}

/// Converts the optionals to an array.
pub fn opt2arr32i(naturals: &Vec<Option<i32>>) -> (a: ArrayI32)
    ensures
        array32_entries(a) == opt_entries_of(naturals@),
        array32_entries(a).len() == naturals@.len(),
        count_absent(array32_entries(a)) == count_missing(naturals@),
{
    opts2array_default(naturals)
}

/// Converts the optionals to an array.
pub fn opt2arr64i(naturals: &Vec<Option<i64>>) -> (a: ArrayI64)
    ensures
        array64_entries(a) == opt_entries_of(naturals@),
        array64_entries(a).len() == naturals@.len(),
        count_absent(array64_entries(a)) == count_missing(naturals@),
{
    opts2array_default(naturals)
}

} // verus!
