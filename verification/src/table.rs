//! The slot table as contracts see it: a sequence of optional moles, and
//! what sweeping, spawning and hitting do to it.

use crate::geometry::Point;
use crate::mole::MoleView;
use vstd::prelude::*;

verus! {

/// Number of occupied slots.
pub open spec fn occupied<I>(s: Seq<Option<MoleView<I>>>) -> nat
    decreases s.len(),
{
    if s.len() == 0 {
        0
    } else {
        occupied(s.drop_last()) + if s.last() is Some {
            1nat
        } else {
            0nat
        }
    }
}

/// Lowest index at or after `k` whose slot is empty; `s.len()` if there is none.
pub open spec fn first_vacant_from<I>(s: Seq<Option<MoleView<I>>>, k: int) -> int
    decreases s.len() - k,
{
    if k < 0 || k >= s.len() {
        s.len() as int
    } else if s[k] is None {
        k
    } else {
        first_vacant_from(s, k + 1)
    }
}

/// Lowest index of an empty slot; `s.len()` if the table is full.
pub open spec fn first_vacant<I>(s: Seq<Option<MoleView<I>>>) -> int {
    first_vacant_from(s, 0)
}

/// Whether the slot holds a mole that a click at `point` hits.
pub open spec fn slot_contains<I>(slot: Option<MoleView<I>>, point: Point) -> bool {
    slot is Some && slot->0.contains(point)
}

/// Lowest index at or after `k` whose mole contains `point`; `s.len()` if
/// there is none.
pub open spec fn first_containing_from<I>(s: Seq<Option<MoleView<I>>>, point: Point, k: int) -> int
    decreases s.len() - k,
{
    if k < 0 || k >= s.len() {
        s.len() as int
    } else if slot_contains(s[k], point) {
        k
    } else {
        first_containing_from(s, point, k + 1)
    }
}

/// Lowest index of a mole that contains `point`; `s.len()` if no mole does.
pub open spec fn first_containing<I>(s: Seq<Option<MoleView<I>>>, point: Point) -> int {
    first_containing_from(s, point, 0)
}

/// The table with every mole removed whose expiry tick is `tick` or earlier.
pub open spec fn swept<I>(s: Seq<Option<MoleView<I>>>, tick: int) -> Seq<Option<MoleView<I>>> {
    Seq::new(
        s.len(),
        |i: int|
            if s[i] is Some && s[i]->0.expired_at(tick) {
                None
            } else {
                s[i]
            },
    )
}

/// The table with `mole` put into the lowest empty slot; unchanged if full.
pub open spec fn after_spawn<I>(s: Seq<Option<MoleView<I>>>, mole: MoleView<I>) -> Seq<
    Option<MoleView<I>>,
> {
    let i = first_vacant(s);
    if i < s.len() {
        s.update(i, Some(mole))
    } else {
        s
    }
}

/// The table with the lowest-indexed mole that contains `point` removed;
/// unchanged if no mole contains it.
pub open spec fn after_hit<I>(s: Seq<Option<MoleView<I>>>, point: Point) -> Seq<
    Option<MoleView<I>>,
> {
    let i = first_containing(s, point);
    if i < s.len() {
        s.update(i, None)
    } else {
        s
    }
}

/// `first_vacant_from(s, k)` is the first empty slot from `k` on.
pub proof fn lemma_first_vacant_from<I>(s: Seq<Option<MoleView<I>>>, k: int)
    requires
        0 <= k <= s.len(),
    ensures
        k <= first_vacant_from(s, k) <= s.len(),
        forall|j: int| k <= j < first_vacant_from(s, k) ==> s[j] is Some,
        first_vacant_from(s, k) < s.len() ==> s[first_vacant_from(s, k)] is None,
    decreases s.len() - k,
{
    if k < s.len() && s[k] is Some {
        lemma_first_vacant_from(s, k + 1);
    }
}

/// An empty slot with only occupied slots before it is the first vacant one.
pub proof fn lemma_first_vacant_is<I>(s: Seq<Option<MoleView<I>>>, i: int)
    requires
        0 <= i <= s.len(),
        forall|j: int| 0 <= j < i ==> s[j] is Some,
        i < s.len() ==> s[i] is None,
    ensures
        first_vacant(s) == i,
{
    lemma_first_vacant_from(s, 0);
}

/// `first_containing_from(s, point, k)` is the first hit from `k` on.
pub proof fn lemma_first_containing_from<I>(s: Seq<Option<MoleView<I>>>, point: Point, k: int)
    requires
        0 <= k <= s.len(),
    ensures
        k <= first_containing_from(s, point, k) <= s.len(),
        forall|j: int|
            k <= j < first_containing_from(s, point, k) ==> !slot_contains(#[trigger] s[j], point),
        first_containing_from(s, point, k) < s.len() ==> slot_contains(
            s[first_containing_from(s, point, k)],
            point,
        ),
    decreases s.len() - k,
{
    if k < s.len() && !slot_contains(s[k], point) {
        lemma_first_containing_from(s, point, k + 1);
    }
}

/// A mole that contains `point`, with none before it that does, is the
/// first containing one.
pub proof fn lemma_first_containing_is<I>(s: Seq<Option<MoleView<I>>>, point: Point, i: int)
    requires
        0 <= i <= s.len(),
        forall|j: int| 0 <= j < i ==> !slot_contains(#[trigger] s[j], point),
        i < s.len() ==> slot_contains(s[i], point),
    ensures
        first_containing(s, point) == i,
{
    lemma_first_containing_from(s, point, 0);
}

/// No table holds more moles than it has slots.
pub proof fn lemma_occupied_bound<I>(s: Seq<Option<MoleView<I>>>)
    ensures
        occupied(s) <= s.len(),
    decreases s.len(),
{
    if s.len() > 0 {
        lemma_occupied_bound(s.drop_last());
    }
}

/// The count is zero exactly when every slot is empty.
pub proof fn lemma_occupied_zero<I>(s: Seq<Option<MoleView<I>>>)
    ensures
        occupied(s) == 0 <==> (forall|i: int| 0 <= i < s.len() ==> s[i] is None),
    decreases s.len(),
{
    if s.len() > 0 {
        let t = s.drop_last();
        lemma_occupied_zero(t);
        assert(forall|i: int| 0 <= i < t.len() ==> t[i] == s[i]);
        if occupied(s) == 0 {
            assert forall|i: int| 0 <= i < s.len() implies s[i] is None by {
                if i < t.len() {
                    assert(t[i] is None);
                }
            }
        }
        if forall|i: int| 0 <= i < s.len() ==> s[i] is None {
            assert(s.last() is None);
            assert forall|i: int| 0 <= i < t.len() implies t[i] is None by {
                assert(s[i] is None);
            }
        }
    }
}

/// Filling or emptying one slot moves the count by the difference.
pub proof fn lemma_occupied_update<I>(
    s: Seq<Option<MoleView<I>>>,
    i: int,
    slot: Option<MoleView<I>>,
)
    requires
        0 <= i < s.len(),
    ensures
        occupied(s.update(i, slot)) + (if s[i] is Some {
            1nat
        } else {
            0nat
        }) == occupied(s) + (if slot is Some {
            1nat
        } else {
            0nat
        }),
    decreases s.len(),
{
    let u = s.update(i, slot);
    if i == s.len() - 1 {
        assert(u.drop_last() =~= s.drop_last());
    } else {
        assert(u.drop_last() =~= s.drop_last().update(i, slot));
        lemma_occupied_update(s.drop_last(), i, slot);
    }
}

} // verus!
