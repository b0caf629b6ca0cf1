//! NUL-terminated strings and NUL-separated lists of them, as the platform
//! hands them out in buffers of UTF-16 code units.

use vstd::prelude::*;
use vstd::slice::{slice_subrange, slice_to_vec};

verus! {

/// The position of the first NUL among the units, or their number where none
/// of them is NUL.
pub open spec fn first_nul(units: Seq<u16>) -> int
    decreases units.len(),
{
    if units.len() == 0 || units[0] == 0 {
        0
    } else {
        1 + first_nul(units.drop_first())
    }
}

/// `first_nul` lies within the units, no unit before it is NUL, and the unit
/// at it, if there is one, is NUL.
pub proof fn lemma_first_nul(units: Seq<u16>)
    ensures
        0 <= first_nul(units) <= units.len(),
        forall|j: int| 0 <= j < first_nul(units) ==> #[trigger] units[j] != 0,
        first_nul(units) < units.len() ==> units[first_nul(units)] == 0,
    decreases units.len(),
{
    if units.len() == 0 || units[0] == 0 {
    } else {
        let rest = units.drop_first();
        lemma_first_nul(rest);
        assert forall|j: int| 0 <= j < first_nul(units) implies #[trigger] units[j] != 0 by {
            if j > 0 {
                assert(units[j] == rest[j - 1]);
            }
        }
        if first_nul(units) < units.len() {
            assert(units[first_nul(units)] == rest[first_nul(rest)]);
        }
    }
}

/// A position that has the three properties of `first_nul` is `first_nul`.
pub proof fn lemma_first_nul_is(units: Seq<u16>, at: int)
    requires
        0 <= at <= units.len(),
        forall|j: int| 0 <= j < at ==> #[trigger] units[j] != 0,
        at < units.len() ==> units[at] == 0,
    ensures
        first_nul(units) == at,
{
    lemma_first_nul(units);
    let found = first_nul(units);
    if found < at {
        assert(units[found] != 0);
    }
}

/// The string that the units begin with: what stands before the first NUL.
pub open spec fn until_nul(units: Seq<u16>) -> Seq<u16> {
    units.take(first_nul(units))
}

/// The entries of a list in which a NUL stands between every two entries. A
/// list with n NULs has n + 1 entries, empty ones included.
pub open spec fn split_at_nul(units: Seq<u16>) -> Seq<Seq<u16>>
    decreases units.len(),
{
    let end = first_nul(units);
    if 0 <= end < units.len() {
        seq![units.take(end)] + split_at_nul(units.skip(end + 1))
    } else {
        seq![units]
    }
}

/// The entries with a NUL between every two of them.
pub open spec fn join_with_nul(entries: Seq<Seq<u16>>) -> Seq<u16>
    decreases entries.len(),
{
    if entries.len() == 0 {
        Seq::empty()
    } else if entries.len() == 1 {
        entries[0]
    } else {
        entries[0] + seq![0u16] + join_with_nul(entries.drop_first())
    }
}

/// Splitting loses nothing: no entry holds a NUL, and the entries joined by
/// NULs are the list again.
pub proof fn lemma_split_at_nul(units: Seq<u16>)
    ensures
        split_at_nul(units).len() >= 1,
        forall|i: int, j: int|
            0 <= i < split_at_nul(units).len() && 0 <= j < split_at_nul(units)[i].len()
                ==> #[trigger] split_at_nul(units)[i][j] != 0,
        join_with_nul(split_at_nul(units)) == units,
    decreases units.len(),
{
    lemma_first_nul(units);
    let end = first_nul(units);
    let entries = split_at_nul(units);
    if end < units.len() {
        let rest = units.skip(end + 1);
        let tail = split_at_nul(rest);
        lemma_split_at_nul(rest);
        assert(entries == seq![units.take(end)] + tail);
        assert(entries.drop_first() == tail);
        assert forall|i: int, j: int|
            0 <= i < entries.len() && 0 <= j < entries[i].len() implies #[trigger] entries[i][j]
            != 0 by {
            if i == 0 {
                assert(entries[0][j] == units[j]);
            } else {
                assert(entries[i][j] == tail[i - 1][j]);
            }
        }
        assert(units.take(end) + seq![0u16] + rest =~= units);
    } else {
        assert forall|i: int, j: int|
            0 <= i < entries.len() && 0 <= j < entries[i].len() implies #[trigger] entries[i][j]
            != 0 by {
            assert(entries[i][j] == units[j]);
        }
    }
}

/// The position of the first NUL at or after `from`, or the number of units
/// where there is none.
pub(crate) fn nul_position(units: &[u16], from: usize) -> (at: usize)
    requires
        from <= units@.len(),
    ensures
        at == from + first_nul(units@.skip(from as int)),
        from <= at <= units@.len(),
{
    let len: usize = units.len();
    let mut at: usize = from;
    while at < len && units[at] != 0
        invariant
            from <= at <= len,
            len == units@.len(),
            forall|j: int| from <= j < at ==> units@[j] != 0,
        decreases len - at,
    {
        at = at + 1;
    }
    proof {
        lemma_first_nul_is(units@.skip(from as int), at - from);
    }
    at
}

/// The contents of each entry.
pub open spec fn entry_views(entries: Seq<Vec<u16>>) -> Seq<Seq<u16>> {
    Seq::new(entries.len(), |i: int| entries[i]@)
}

/// Splits a list at every NUL into its entries, empty ones included.
pub fn split_entries(list: &[u16]) -> (entries: Vec<Vec<u16>>)
    ensures
        entry_views(entries@) == split_at_nul(list@),
{
    let len: usize = list.len();
    let mut entries: Vec<Vec<u16>> = Vec::new();
    let mut start: usize = 0;
    assert(list@.skip(0) == list@);
    loop
        invariant
            start <= len,
            len == list@.len(),
            split_at_nul(list@) == entry_views(entries@) + split_at_nul(list@.skip(start as int)),
        decreases len - start,
    {
        let ghost tail = list@.skip(start as int);
        let ghost before = entry_views(entries@);
        let end: usize = nul_position(list, start);
        let entry: Vec<u16> = slice_to_vec(slice_subrange(list, start, end));
        entries.push(entry);
        proof {
            assert(entry@ == tail.take(end - start));
            assert(entry_views(entries@) =~= before + seq![entry@]);
        }
        if end >= len {
            assert(tail.take(tail.len() as int) == tail);
            return entries;
        }
        proof {
            assert(tail.skip(end - start + 1) == list@.skip(end + 1));
        }
        start = end + 1;
    }
}

} // verus!
