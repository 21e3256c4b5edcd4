//! The order of the table of contested names.

use crate::contested_names::ContestedName;
use crate::dpns::{SortColumn, SortOrder, Sorting};
use vstd::prelude::*;

verus! {

/// `a` comes before `b` in the order of byte strings: at the first place
/// where they differ `a` holds the smaller byte, or `a` ends there and `b`
/// goes on.
pub open spec fn lex_less(a: Seq<u8>, b: Seq<u8>) -> bool
    decreases a.len(),
{
    if b.len() == 0 {
        false
    } else if a.len() == 0 {
        true
    } else if a[0] != b[0] {
        a[0] < b[0]
    } else {
        lex_less(a.drop_first(), b.drop_first())
    }
}

/// No byte string comes before itself, and of two that differ exactly one
/// comes before the other.
pub proof fn lemma_lex_trichotomy(a: Seq<u8>, b: Seq<u8>)
    ensures
        !(lex_less(a, b) && lex_less(b, a)),
        a == b <==> !lex_less(a, b) && !lex_less(b, a),
    decreases a.len(),
{
    if a.len() > 0 && b.len() > 0 {
        lemma_lex_trichotomy(a.drop_first(), b.drop_first());
        if a[0] == b[0] && a.drop_first() == b.drop_first() {
            assert(a =~= seq![a[0]] + a.drop_first());
            assert(b =~= seq![b[0]] + b.drop_first());
        }
    } else if a.len() == 0 && b.len() == 0 {
        assert(a =~= b);
    }
}

/// The order of byte strings is transitive.
pub proof fn lemma_lex_transitive(a: Seq<u8>, b: Seq<u8>, c: Seq<u8>)
    requires
        lex_less(a, b),
        lex_less(b, c),
    ensures
        lex_less(a, c),
    decreases a.len(),
{
    if a.len() > 0 && a[0] == b[0] && b[0] == c[0] {
        lemma_lex_transitive(a.drop_first(), b.drop_first(), c.drop_first());
    }
}

/// Tells whether `a` comes before `b` in the order of byte strings.
pub fn bytes_less(a: &[u8], b: &[u8]) -> (less: bool)
    ensures
        less == lex_less(a@, b@),
{
    let mut i: usize = 0;
    assert(a@.skip(0) =~= a@);
    assert(b@.skip(0) =~= b@);
    while i < a.len() && i < b.len()
        invariant
            i <= a.len(),
            i <= b.len(),
            lex_less(a@, b@) == lex_less(a@.skip(i as int), b@.skip(i as int)),
        decreases a.len() - i,
    {
        proof {
            assert(a@.skip(i as int)[0] == a@[i as int]);
            assert(b@.skip(i as int)[0] == b@[i as int]);
            assert(a@.skip(i as int).drop_first() =~= a@.skip(i + 1));
            assert(b@.skip(i as int).drop_first() =~= b@.skip(i + 1));
        }
        if a[i] != b[i] {
            return a[i] < b[i];
        }
        i = i + 1;
    }
    i < b.len()
}

/// What a row is sorted by: a number, and after it a byte string.
pub struct SortKey {
    pub number: int,
    pub text: Seq<u8>,
}

/// The key of a number that may be missing: a missing number comes first.
pub open spec fn number_key(number: Option<u64>) -> SortKey {
    SortKey {
        number: match number {
            Some(n) => n as int,
            None => -1,
        },
        text: Seq::empty(),
    }
}

/// The key by which a column sorts a contested name: the name by its
/// bytes; the votes and the times by their number, a missing one first;
/// the winner by the bytes of its id, a missing one first.
pub open spec fn sort_key(name: ContestedName, column: SortColumn) -> SortKey {
    match column {
        SortColumn::ContestedName => SortKey {
            number: 0,
            text: vstd::utf8::encode_utf8(name.normalized_contested_name@),
        },
        SortColumn::LockedVotes => number_key(
            match name.locked_votes {
                Some(votes) => Some(votes as u64),
                None => None,
            },
        ),
        SortColumn::AbstainVotes => number_key(
            match name.abstain_votes {
                Some(votes) => Some(votes as u64),
                None => None,
            },
        ),
        SortColumn::EndingTime => number_key(name.end_time),
        SortColumn::LastUpdated => number_key(name.last_updated),
        SortColumn::AwardedTo => match name.awarded_to {
            Some(id) => SortKey { number: 0, text: id@ },
            None => SortKey { number: -1, text: Seq::empty() },
        },
    }
}

/// The key `a` comes before the key `b`.
pub open spec fn key_less(a: SortKey, b: SortKey) -> bool {
    a.number < b.number || (a.number == b.number && lex_less(a.text, b.text))
}

/// The row at place `i` of `names` comes before the row at place `j` in
/// the sorted table: by its key, in the direction of the sorting; of two
/// rows with the same key the one that stood first.
pub open spec fn row_precedes(names: Seq<ContestedName>, sorting: Sorting, i: int, j: int) -> bool {
    let a = sort_key(names[i], sorting.sort_column);
    let b = sort_key(names[j], sorting.sort_column);
    let (first, second) = match sorting.sort_order {
        SortOrder::Ascending => (a, b),
        SortOrder::Descending => (b, a),
    };
    key_less(first, second) || (!key_less(second, first) && i < j)
}

/// Of two different rows exactly one comes before the other.
pub proof fn lemma_rows_are_ordered(names: Seq<ContestedName>, sorting: Sorting, i: int, j: int)
    ensures
        !(row_precedes(names, sorting, i, j) && row_precedes(names, sorting, j, i)),
        i != j ==> row_precedes(names, sorting, i, j) || row_precedes(names, sorting, j, i),
{
    let a = sort_key(names[i], sorting.sort_column);
    let b = sort_key(names[j], sorting.sort_column);
    lemma_lex_trichotomy(a.text, b.text);
}

/// The order of the rows is transitive.
pub proof fn lemma_rows_transitive(names: Seq<ContestedName>, sorting: Sorting, i: int, j: int, k: int)
    requires
        row_precedes(names, sorting, i, j),
        row_precedes(names, sorting, j, k),
    ensures
        row_precedes(names, sorting, i, k),
{
    let a = sort_key(names[i], sorting.sort_column);
    let b = sort_key(names[j], sorting.sort_column);
    let c = sort_key(names[k], sorting.sort_column);
    lemma_lex_trichotomy(a.text, b.text);
    lemma_lex_trichotomy(b.text, c.text);
    lemma_lex_trichotomy(a.text, c.text);
    if lex_less(a.text, b.text) && lex_less(b.text, c.text) {
        lemma_lex_transitive(a.text, b.text, c.text);
    }
    if lex_less(c.text, b.text) && lex_less(b.text, a.text) {
        lemma_lex_transitive(c.text, b.text, a.text);
    }
}

/// The rows of `sorted` are those of `names`, each once, in the order of
/// the sorting; `origin` gives for each place of `sorted` the place that
/// its row had in `names`.
pub open spec fn is_sorted_arrangement(
    names: Seq<ContestedName>,
    sorting: Sorting,
    sorted: Seq<ContestedName>,
    origin: Seq<usize>,
) -> bool {
    &&& sorted.len() == names.len()
    &&& origin.len() == names.len()
    &&& forall|k: int| 0 <= k < origin.len() ==> 0 <= #[trigger] origin[k] < names.len()
    &&& forall|k: int| 0 <= k < sorted.len() ==> #[trigger] sorted[k] == names[origin[k] as int]
    &&& forall|k: int, l: int|
        0 <= k < l < origin.len() ==> row_precedes(
            names,
            sorting,
            #[trigger] origin[k] as int,
            #[trigger] origin[l] as int,
        )
}

fn number_less(a: Option<u64>, b: Option<u64>) -> (less: bool)
    ensures
        less == key_less(number_key(a), number_key(b)),
{
    match (a, b) {
        (None, None) => false,
        (None, Some(_)) => true,
        (Some(_), None) => false,
        (Some(x), Some(y)) => x < y,
    }
}

fn widen(votes: Option<u32>) -> (wide: Option<u64>)
    ensures
        wide == match votes {
            Some(v) => Some(v as u64),
            None => None::<u64>,
        },
{
    match votes {
        Some(v) => Some(v as u64),
        None => None,
    }
}

/// Tells whether the key of `a` comes before the key of `b`.
fn name_key_less(a: &ContestedName, b: &ContestedName, column: SortColumn) -> (less: bool)
    ensures
        less == key_less(sort_key(*a, column), sort_key(*b, column)),
{
    match column {
        SortColumn::ContestedName => bytes_less(
            a.normalized_contested_name.as_str().as_bytes(),
            b.normalized_contested_name.as_str().as_bytes(),
        ),
        SortColumn::LockedVotes => number_less(widen(a.locked_votes), widen(b.locked_votes)),
        SortColumn::AbstainVotes => number_less(widen(a.abstain_votes), widen(b.abstain_votes)),
        SortColumn::EndingTime => number_less(a.end_time, b.end_time),
        SortColumn::LastUpdated => number_less(a.last_updated, b.last_updated),
        SortColumn::AwardedTo => match (&a.awarded_to, &b.awarded_to) {
            (None, None) => false,
            (None, Some(_)) => true,
            (Some(_), None) => false,
            (Some(x), Some(y)) => bytes_less(x.as_slice(), y.as_slice()),
        },
    }
}

impl Sorting {
    /// Sorts the contested names by the column and in the direction of the
    /// sorting; rows with the same key keep their order. Returns for each
    /// place of the sorted table the place that its row had before.
    pub fn sort_contested_names(&self, contested_names: &mut Vec<ContestedName>) -> (origin: Vec<
        usize,
    >)
        ensures
            is_sorted_arrangement(
                old(contested_names)@,
                *self,
                final(contested_names)@,
                origin@,
            ),
    {
        let ghost names = contested_names@;
        let count = contested_names.len();
        let mut origin: Vec<usize> = Vec::new();
        let mut n: usize = 0;
        while n < count
            invariant
                n <= count,
                origin@.len() == n,
                forall|k: int| 0 <= k < n ==> origin@[k] == k,
            decreases count - n,
        {
            origin.push(n);
            n = n + 1;
        }
        let mut i: usize = 0;
        while i < count
            invariant
                i <= count,
                count == names.len(),
                contested_names@.len() == count,
                origin@.len() == count,
                forall|k: int| 0 <= k < count ==> 0 <= #[trigger] origin@[k] < count,
                forall|k: int|
                    0 <= k < count ==> #[trigger] contested_names@[k] == names[origin@[k] as int],
                forall|k: int| i <= k < count ==> origin@[k] == k,
                forall|k: int| 0 <= k < i ==> (#[trigger] origin@[k]) < i,
                forall|k: int, l: int|
                    0 <= k < l < i ==> row_precedes(
                        names,
                        *self,
                        #[trigger] origin@[k] as int,
                        #[trigger] origin@[l] as int,
                    ),
            decreases count - i,
        {
            let ghost rows = contested_names@;
            let ghost places = origin@;
            let mut place: usize = i;
            while place > 0 && self.precedes(&contested_names[i], &contested_names[place - 1])
                invariant
                    place <= i < count,
                    count == names.len(),
                    rows == contested_names@,
                    places == origin@,
                    rows.len() == count,
                    places.len() == count,
                    places[i as int] == i,
                    forall|k: int| 0 <= k < count ==> 0 <= #[trigger] places[k] < count,
                    forall|k: int| 0 <= k < count ==> #[trigger] rows[k] == names[places[k] as int],
                    forall|k: int| 0 <= k < i ==> (#[trigger] places[k]) < i,
                    forall|k: int|
                        place <= k < i ==> row_precedes(
                            names,
                            *self,
                            i as int,
                            #[trigger] places[k] as int,
                        ),
                decreases place,
            {
                proof {
                    let before = places[place - 1] as int;
                    assert(rows[place - 1] == names[before]);
                    assert(rows[i as int] == names[i as int]);
                    lemma_rows_are_ordered(names, *self, i as int, before);
                }
                place = place - 1;
            }
            proof {
                if place > 0 {
                    let before = places[place - 1] as int;
                    assert(rows[place - 1] == names[before]);
                    assert(rows[i as int] == names[i as int]);
                    lemma_rows_are_ordered(names, *self, i as int, before);
                    assert(row_precedes(names, *self, before, i as int));
                    assert forall|k: int| 0 <= k < place implies row_precedes(
                        names,
                        *self,
                        #[trigger] places[k] as int,
                        i as int,
                    ) by {
                        if k < place - 1 {
                            lemma_rows_transitive(names, *self, places[k] as int, before, i as int);
                        }
                    }
                }
            }
            let row = contested_names.remove(i);
            contested_names.insert(place, row);
            let _ = origin.remove(i);
            origin.insert(place, i);
            proof {
                let after = origin@;
                assert forall|k: int| 0 <= k < count implies #[trigger] contested_names@[k]
                    == names[after[k] as int] by {
                    if k < place {
                        assert(after[k] == places[k]);
                    } else if k == place {
                    } else if k <= i {
                        assert(after[k] == places[k - 1]);
                        assert(contested_names@[k] == rows[k - 1]);
                    } else {
                        assert(after[k] == places[k]);
                    }
                }
                assert forall|k: int, l: int| 0 <= k < l < i + 1 implies row_precedes(
                    names,
                    *self,
                    #[trigger] after[k] as int,
                    #[trigger] after[l] as int,
                ) by {
                    let k0 = if k < place {
                        k
                    } else {
                        k - 1
                    };
                    let l0 = if l < place {
                        l
                    } else {
                        l - 1
                    };
                    if k == place {
                        assert(after[l] == places[l0]);
                    } else if l == place {
                        assert(after[k] == places[k0]);
                    } else {
                        assert(after[k] == places[k0]);
                        assert(after[l] == places[l0]);
                    }
                }
                assert forall|k: int| 0 <= k < i + 1 implies (#[trigger] after[k]) < i + 1 by {
                    if k < place {
                        assert(after[k] == places[k]);
                    } else if k > place {
                        assert(after[k] == places[k - 1]);
                    }
                }
                assert forall|k: int| 0 <= k < count implies 0 <= #[trigger] after[k] < count by {
                    if k < place {
                        assert(after[k] == places[k]);
                    } else if k == place {
                    } else if k <= i {
                        assert(after[k] == places[k - 1]);
                    } else {
                        assert(after[k] == places[k]);
                    }
                }
            }
            i = i + 1;
        }
        origin
    }

    /// Tells whether the row `a` comes before a row `b` that stood before
    /// it: it does so by its key alone.
    fn precedes(&self, a: &ContestedName, b: &ContestedName) -> (before: bool)
        ensures
            before == match self.sort_order {
                SortOrder::Ascending => key_less(
                    sort_key(*a, self.sort_column),
                    sort_key(*b, self.sort_column),
                ),
                SortOrder::Descending => key_less(
                    sort_key(*b, self.sort_column),
                    sort_key(*a, self.sort_column),
                ),
            },
    {
        match self.sort_order {
            SortOrder::Ascending => name_key_less(a, b, self.sort_column),
            SortOrder::Descending => name_key_less(b, a, self.sort_column),
        }
    }
}

} // verus!
