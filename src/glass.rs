use vstd::prelude::*;

verus! {

/// What a glass holds. It is a label only: no operation depends on it.
#[derive(Clone, Copy, Debug, PartialEq, Eq, Structural)]
pub enum DrinkType {
    Water,
    Juice,
    Milk,
    Tea,
    Coffee,
    Soda,
    Smoothie,
    HotChocolate,
    Monster,
}

/// How much a glass holds when a fresh one is poured at the start of a shift.
pub const GLASS_CAPACITY: u32 = 100;

/// A glass with its current and maximum volume, in whole units.
#[derive(Clone, Copy, Debug, PartialEq, Eq, Structural)]
pub struct Glass {
    pub drink: DrinkType,
    pub cur_volume: u32,
    pub max_volume: u32,
}

impl Glass {
    /// A glass is well formed when it holds no more than it can.
    pub open spec fn wf(self) -> bool {
        self.cur_volume <= self.max_volume
    }

    /// An empty glass of `drink` that holds `max_volume` when full.
    pub fn new(drink: DrinkType, max_volume: u32) -> (g: Glass)
        ensures
            g.drink == drink,
            g.cur_volume == 0,
            g.max_volume == max_volume,
            g.wf(),
    {
        Glass { drink, cur_volume: 0, max_volume }
    }

    /// Whether nothing is left in the glass (`cur_volume <= 0`; the volume
    /// is unsigned, so this is `cur_volume == 0`).
    pub fn empty(&self) -> (r: bool)
        ensures
            r == (self.cur_volume == 0),
    {
        self.cur_volume == 0
    }
}

} // verus!
