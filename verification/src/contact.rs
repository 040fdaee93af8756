//! Which pairs of particles touch, and which pair an update resolves.
//!
//! The caller measures every pair and hands in a table of what it found. Row
//! `i`, column `j` speaks of particles `i` and `j`; only entries with
//! `i < j` are read, and an entry that the table lacks counts as apart.

use vstd::prelude::*;

verus! {

/// What a measurement of two particles found.
#[derive(Copy, Clone, Debug, PartialEq, Eq, Structural)]
pub enum Contact {
    /// The centres are at least two radii apart.
    Apart,
    /// The centres are closer than two radii and do not coincide.
    Touching,
    /// The centres coincide, so no line joins them.
    Coincident,
}

/// The entry of `table` for particles `i` and `j`.
pub open spec fn contact_at(table: Seq<Vec<Contact>>, i: int, j: int) -> Contact {
    if 0 <= i < table.len() && 0 <= j < table[i]@.len() {
        table[i]@[j]
    } else {
        Contact::Apart
    }
}

/// Particles `i < j` of a population of `count` are in contact.
pub open spec fn in_contact(table: Seq<Vec<Contact>>, count: int, i: int, j: int) -> bool {
    0 <= i < j < count && contact_at(table, i, j) != Contact::Apart
}

/// The scan visits pair `(a, b)` before pair `(i, j)`: pairs are taken by
/// rising first index, and by rising second index within one first index.
pub open spec fn scanned_before(a: int, b: int, i: int, j: int) -> bool {
    a < i || (a == i && b < j)
}

/// `(i, j)` is the pair in contact that the scan meets first.
pub open spec fn is_first_contact(table: Seq<Vec<Contact>>, count: int, i: int, j: int) -> bool {
    &&& in_contact(table, count, i, j)
    &&& forall|a: int, b: int| #[trigger]
        in_contact(table, count, a, b) ==> !scanned_before(a, b, i, j)
}

/// Scans all pairs of a population of `count` particles in order and returns
/// the first one in contact, if there is any.
pub fn first_contact(count: usize, table: &Vec<Vec<Contact>>) -> (hit: Option<(usize, usize)>)
    ensures
        match hit {
            Some((i, j)) => is_first_contact(table@, count as int, i as int, j as int),
            None => forall|a: int, b: int| !in_contact(table@, count as int, a, b),
        },
{
    let mut i: usize = 0;
    while i < count
        invariant
            i <= count,
            forall|a: int, b: int| a < i ==> !in_contact(table@, count as int, a, b),
        decreases count - i,
    {
        if i < table.len() {
            let row = &table[i];
            let mut j: usize = i + 1;
            while j < count
                invariant
                    i < j <= count,
                    i < table.len(),
                    *row == table@[i as int],
                    forall|a: int, b: int| a < i ==> !in_contact(table@, count as int, a, b),
                    forall|b: int| b < j ==> !in_contact(table@, count as int, i as int, b),
                decreases count - j,
            {
                if j < row.len() {
                    match row[j] {
                        Contact::Apart => {},
                        _ => {
                            return Some((i, j));
                        },
                    }
                }
                j += 1;
            }
        }
        i += 1;
    }
    None
}

/// At most one pair is the first in contact.
pub proof fn lemma_first_contact_unique(
    table: Seq<Vec<Contact>>,
    count: int,
    i: int,
    j: int,
    a: int,
    b: int,
)
    requires
        is_first_contact(table, count, i, j),
        is_first_contact(table, count, a, b),
    ensures
        i == a,
        j == b,
{
}

} // verus!
