//! Laws of the batch builders that relate separate builds: the result is a
//! function of the input sequence alone, so neither the capacity hint nor
//! rebuilding from a fresh builder can change it.

use vstd::prelude::*;

use crate::columnar::Columnar;
use crate::native::buffer_of;
use crate::native::count_absent;
use crate::native::entries_of;
use crate::native::opt_entries_of;

verus! {

/// Two arrays built from the identical sequence of native values — by
/// independently-constructed builders, with any capacity hints — have
/// identical entries, hence identical length, null count and value buffer.
pub proof fn lemma_rebuild_identical<N: Columnar>(s: Seq<N>, a1: N::Array, a2: N::Array)
    requires
        N::array_entries(a1) == entries_of(s),
        N::array_entries(a2) == entries_of(s),
    ensures
        N::array_entries(a1) == N::array_entries(a2),
        N::array_entries(a1).len() == N::array_entries(a2).len(),
        count_absent(N::array_entries(a1)) == count_absent(N::array_entries(a2)),
        buffer_of(N::array_entries(a1)) == buffer_of(N::array_entries(a2)),
{
}

/// Two arrays built from the identical sequence of optional native values —
/// by independently-constructed builders, with any capacity hints — have
/// identical entries, hence identical length, null count and value buffer.
pub proof fn lemma_rebuild_identical_opt<N: Columnar>(s: Seq<Option<N>>, a1: N::Array, a2: N::Array)
    requires
        N::array_entries(a1) == opt_entries_of(s),
        N::array_entries(a2) == opt_entries_of(s),
    ensures
        N::array_entries(a1) == N::array_entries(a2),
        N::array_entries(a1).len() == N::array_entries(a2).len(),
        count_absent(N::array_entries(a1)) == count_absent(N::array_entries(a2)),
        buffer_of(N::array_entries(a1)) == buffer_of(N::array_entries(a2)),
{
}

} // verus!
