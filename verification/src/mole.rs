//! A mole: one transient target of the play field.

use crate::asset::{AssetLoadError, AsyncAsset, LoadReport, PollStatus};
use crate::geometry::Point;
use vstd::prelude::*;

verus! {

/// Radius of every mole's hit circle.
pub const HIT_RADIUS: i32 = 50;

/// What a mole is, as contracts see it.
pub ghost struct MoleView<I> {
    /// Centre of the hit circle.
    pub center: Point,
    /// The frame count at which the mole vanishes if nobody hit it.
    pub expiry_tick: int,
    /// The mole's picture.
    pub visual: AsyncAsset<I>,
}

impl<I> MoleView<I> {
    /// A mole as `Mole::create` makes it: its picture still loading.
    pub open spec fn fresh(center: Point, expiry_tick: int) -> MoleView<I> {
        MoleView { center, expiry_tick, visual: AsyncAsset::Pending }
    }

    /// Whether a click at `point` hits the mole.
    pub open spec fn contains(self, point: Point) -> bool {
        self.center.within(point, HIT_RADIUS as int)
    }

    /// Whether the mole is gone at frame count `tick`.
    pub open spec fn expired_at(self, tick: int) -> bool {
        self.expiry_tick <= tick
    }

    /// The mole after a poll of its picture's load reported `report`.
    pub open spec fn after_poll(self, report: LoadReport<I>) -> MoleView<I> {
        MoleView { visual: self.visual.after_poll(report), ..self }
    }
}

/// A spawned target: where it sits, when it expires, and its picture.
#[derive(Debug)]
pub struct Mole<I> {
    center: Point,
    expiry_tick: usize,
    visual: AsyncAsset<I>,
}

impl<I> View for Mole<I> {
    type V = MoleView<I>;

    closed spec fn view(&self) -> MoleView<I> {
        MoleView {
            center: self.center,
            expiry_tick: self.expiry_tick as int,
            visual: self.visual,
        }
    }
}

impl<I> Mole<I> {
    /// A mole centred at `(x, y)` that expires at `expiry_tick`.  The load
    /// of its picture is the driver's to issue; the picture starts pending.
    pub fn create(x: i32, y: i32, expiry_tick: usize) -> (m: Mole<I>)
        ensures
            m@ == MoleView::<I>::fresh(Point { x, y }, expiry_tick as int),
    {
        Mole { center: Point { x, y }, expiry_tick, visual: AsyncAsset::Pending }
    }

    pub fn center(&self) -> (p: Point)
        ensures
            p == self@.center,
    {
        self.center
    }

    pub fn expiry_tick(&self) -> (t: usize)
        ensures
            t as int == self@.expiry_tick,
    {
        self.expiry_tick
    }

    pub fn visual(&self) -> (a: &AsyncAsset<I>)
        ensures
            *a == self@.visual,
    {
        &self.visual
    }

    /// Whether `point` lies in the hit circle, the border included.
    pub fn contains(&self, point: Point) -> (b: bool)
        ensures
            b == self@.contains(point),
    {
        self.center.is_within(point, HIT_RADIUS)
    }

    /// Whether the mole is gone at frame count `tick`.
    pub fn expired_at(&self, tick: usize) -> (b: bool)
        ensures
            b == self@.expired_at(tick as int),
    {
        self.expiry_tick <= tick
    }

    /// Takes in the report of one poll of the picture's load.
    pub fn poll_visual(&mut self, report: LoadReport<I>) -> (r: Result<
        PollStatus,
        AssetLoadError,
    >)
        ensures
            final(self)@ == old(self)@.after_poll(report),
            r == old(self)@.visual.poll_result(report),
    {
        self.visual.poll(report)
    }
}

} // verus!
