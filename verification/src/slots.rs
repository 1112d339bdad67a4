//! The slot table: a fixed number of slots, each empty or holding one mole.

use crate::asset::{AssetLoadError, LoadReport, PollStatus};
use crate::geometry::Point;
use crate::mole::{Mole, MoleView};
use crate::table::{
    after_hit, after_spawn, first_containing, first_vacant, lemma_first_containing_is,
    lemma_first_vacant_is, occupied, slot_contains, swept,
};
use vstd::prelude::*;

verus! {

/// Number of slots of every table.
pub const CAPACITY: usize = 5;

/// A table of `CAPACITY` empty slots.
pub open spec fn empty_table<I>() -> Seq<Option<MoleView<I>>> {
    Seq::new(CAPACITY as nat, |i: int| None)
}

/// The table after a poll of the picture in `slot` reported `report`.
/// A report for an empty slot, or for no slot at all, changes nothing.
pub open spec fn after_poll<I>(s: Seq<Option<MoleView<I>>>, slot: int, report: LoadReport<I>) -> Seq<
    Option<MoleView<I>>,
> {
    if 0 <= slot < s.len() && s[slot] is Some {
        s.update(slot, Some(s[slot]->0.after_poll(report)))
    } else {
        s
    }
}

/// What a poll of the picture in `slot` that reported `report` returns.
pub open spec fn poll_result<I>(s: Seq<Option<MoleView<I>>>, slot: int, report: LoadReport<I>) -> Result<
    PollStatus,
    AssetLoadError,
> {
    if 0 <= slot < s.len() && s[slot] is Some {
        s[slot]->0.visual.poll_result(report)
    } else {
        Ok(PollStatus::StillPending)
    }
}

/// What one slot is, as contracts see it.
pub open spec fn slot_view<I>(slot: Option<Mole<I>>) -> Option<MoleView<I>> {
    match slot {
        Some(mole) => Some(mole@),
        None => None,
    }
}

/// Fixed-capacity table of optional moles.
#[derive(Debug)]
pub struct SlotTable<I> {
    slots: [Option<Mole<I>>; 5],
}

impl<I> View for SlotTable<I> {
    type V = Seq<Option<MoleView<I>>>;

    closed spec fn view(&self) -> Seq<Option<MoleView<I>>> {
        Seq::new(CAPACITY as nat, |i: int| slot_view(self.slots@[i]))
    }
}

impl<I> SlotTable<I> {
    /// Every table has `CAPACITY` slots.
    pub proof fn lemma_capacity(&self)
        ensures
            self@.len() == CAPACITY,
    {
    }

    /// A table with every slot empty.
    pub fn new() -> (t: SlotTable<I>)
        ensures
            t@ == empty_table::<I>(),
    {
        let t = SlotTable { slots: [None, None, None, None, None] };
        assert(t@ =~= empty_table::<I>());
        t
    }

    /// The mole in `slot`, if the slot exists and is occupied.
    pub fn get(&self, slot: usize) -> (m: Option<&Mole<I>>)
        ensures
            self@.len() == CAPACITY,
            match m {
                Some(mole) => slot < CAPACITY && self@[slot as int] == Some(mole@),
                None => slot >= CAPACITY || self@[slot as int] is None,
            },
    {
        if slot < CAPACITY {
            self.slots[slot].as_ref()
        } else {
            None
        }
    }

    /// Number of occupied slots; never more than `CAPACITY`.
    pub fn occupied_count(&self) -> (n: usize)
        ensures
            n == occupied(self@),
            n <= CAPACITY,
    {
        let mut n: usize = 0;
        let mut i: usize = 0;
        while i < CAPACITY
            invariant
                i <= CAPACITY,
                self@.len() == CAPACITY,
                n == occupied(self@.take(i as int)),
                n <= i,
            decreases CAPACITY - i,
        {
            assert(self@.take(i + 1).drop_last() =~= self@.take(i as int));
            if self.slots[i].is_some() {
                n = n + 1;
            }
            i = i + 1;
        }
        assert(self@.take(CAPACITY as int) =~= self@);
        n
    }

    /// Index of the lowest empty slot, if any slot is empty.
    pub fn first_vacant(&self) -> (r: Option<usize>)
        ensures
            match r {
                Some(i) => i < CAPACITY && i == first_vacant(self@),
                None => first_vacant(self@) == CAPACITY,
            },
    {
        let mut i: usize = 0;
        while i < CAPACITY
            invariant
                i <= CAPACITY,
                self@.len() == CAPACITY,
                forall|j: int| 0 <= j < i ==> self@[j] is Some,
            decreases CAPACITY - i,
        {
            if self.slots[i].is_none() {
                proof {
                    lemma_first_vacant_is(self@, i as int);
                }
                return Some(i);
            }
            i = i + 1;
        }
        proof {
            lemma_first_vacant_is(self@, CAPACITY as int);
        }
        None
    }

    /// Index of the lowest slot whose mole contains `point`, if any does.
    pub fn first_containing(&self, point: Point) -> (r: Option<usize>)
        ensures
            match r {
                Some(i) => i < CAPACITY && i == first_containing(self@, point),
                None => first_containing(self@, point) == CAPACITY,
            },
    {
        let mut i: usize = 0;
        while i < CAPACITY
            invariant
                i <= CAPACITY,
                self@.len() == CAPACITY,
                forall|j: int| 0 <= j < i ==> !slot_contains(#[trigger] self@[j], point),
            decreases CAPACITY - i,
        {
            let hit = match &self.slots[i] {
                Some(mole) => mole.contains(point),
                None => false,
            };
            if hit {
                proof {
                    lemma_first_containing_is(self@, point, i as int);
                }
                return Some(i);
            }
            i = i + 1;
        }
        proof {
            lemma_first_containing_is(self@, point, CAPACITY as int);
        }
        None
    }

    /// Empties every slot whose mole has an expiry tick of `current_tick`
    /// or earlier.
    pub fn sweep_expired(&mut self, current_tick: usize)
        ensures
            final(self)@ == swept(old(self)@, current_tick as int),
    {
        let mut i: usize = 0;
        while i < CAPACITY
            invariant
                i <= CAPACITY,
                self@.len() == CAPACITY,
                old(self)@.len() == CAPACITY,
                forall|j: int| 0 <= j < i ==> self@[j] == swept(old(self)@, current_tick as int)[j],
                forall|j: int| i <= j < CAPACITY ==> self@[j] == old(self)@[j],
            decreases CAPACITY - i,
        {
            let ghost before = self@;
            let expired = match &self.slots[i] {
                Some(mole) => mole.expired_at(current_tick),
                None => false,
            };
            assert(before[i as int] == old(self)@[i as int]);
            if expired {
                self.slots[i] = None;
                assert(self@ =~= before.update(i as int, None));
            }
            assert(self@[i as int] == swept(old(self)@, current_tick as int)[i as int]);
            i = i + 1;
        }
        assert(self@ =~= swept(old(self)@, current_tick as int));
    }

    /// Puts a new mole into the lowest empty slot and says whether there
    /// was one.
    pub fn try_spawn_one(&mut self, x: i32, y: i32, expiry_tick: usize) -> (spawned: bool)
        ensures
            spawned == (first_vacant(old(self)@) < CAPACITY),
            final(self)@ == after_spawn(
                old(self)@,
                MoleView::<I>::fresh(Point { x, y }, expiry_tick as int),
            ),
    {
        match self.first_vacant() {
            Some(i) => {
                self.slots[i] = Some(Mole::create(x, y, expiry_tick));
                assert(self@ =~= old(self)@.update(
                    i as int,
                    Some(MoleView::<I>::fresh(Point { x, y }, expiry_tick as int)),
                ));
                true
            },
            None => false,
        }
    }

    /// Removes the lowest-indexed mole that contains `point` and says
    /// whether there was one.  At most one mole leaves per call.
    pub fn remove_first_containing(&mut self, point: Point) -> (removed: bool)
        ensures
            removed == (first_containing(old(self)@, point) < CAPACITY),
            final(self)@ == after_hit(old(self)@, point),
    {
        match self.first_containing(point) {
            Some(i) => {
                self.slots[i] = None;
                assert(self@ =~= old(self)@.update(i as int, None));
                true
            },
            None => false,
        }
    }

    /// Takes in the report of one poll of the load of the picture in
    /// `slot`.  A report for an empty slot is dropped.
    pub fn poll_visual(&mut self, slot: usize, report: LoadReport<I>) -> (r: Result<
        PollStatus,
        AssetLoadError,
    >)
        ensures
            final(self)@ == after_poll(old(self)@, slot as int, report),
            r == poll_result(old(self)@, slot as int, report),
    {
        if slot >= CAPACITY {
            return Ok(PollStatus::StillPending);
        }
        match self.slots[slot].take() {
            Some(mole) => {
                let mut mole = mole;
                let r = mole.poll_visual(report);
                self.slots[slot] = Some(mole);
                assert(self@ =~= after_poll(old(self)@, slot as int, report));
                r
            },
            None => {
                assert(self@ =~= old(self)@);
                Ok(PollStatus::StillPending)
            },
        }
    }
}

} // verus!
