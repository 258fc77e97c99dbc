use vstd::prelude::*;

verus! {

use crate::glass::Glass;

/// How much one drink takes out of a glass.
pub const SIP_VOLUME: u32 = 10;

/// What is left of `volume` after one drink: `max(volume - SIP_VOLUME, 0)`.
pub open spec fn after_sip(volume: int) -> int {
    if volume - SIP_VOLUME > 0 {
        volume - SIP_VOLUME
    } else {
        0
    }
}

/// The worker: whether they want a drink, and how many hours they have put in.
#[derive(Clone, Copy, Debug, PartialEq, Eq, Structural)]
pub struct User {
    pub is_thirsty: bool,
    pub worked_hours: u8,
}

impl User {
    /// A worker at the start of a shift: thirsty, with no hours worked.
    pub fn new() -> (u: User)
        ensures
            u.is_thirsty,
            u.worked_hours == 0,
    {
        User { is_thirsty: true, worked_hours: 0 }
    }

    /// Takes one drink from `glass`. The volume drops by `SIP_VOLUME` but not
    /// below zero, and the worker is no longer thirsty, even when the glass
    /// was already empty.
    pub fn drink(&mut self, glass: &mut Glass)
        ensures
            final(glass).cur_volume == after_sip(old(glass).cur_volume as int),
            final(glass).max_volume == old(glass).max_volume,
            final(glass).drink == old(glass).drink,
            old(glass).wf() ==> final(glass).wf(),
            !final(self).is_thirsty,
            final(self).worked_hours == old(self).worked_hours,
    {
        if glass.cur_volume > SIP_VOLUME {
            glass.cur_volume = glass.cur_volume - SIP_VOLUME;
        } else {
            glass.cur_volume = 0;
        }
        self.is_thirsty = false;
    }

    /// Logs one hour of work, after which the worker is thirsty again. The
    /// hour itself is spent by the caller: this only records it.
    pub fn work(&mut self)
        requires
            old(self).worked_hours < u8::MAX,
        ensures
            final(self).worked_hours == old(self).worked_hours + 1,
            final(self).is_thirsty,
    {
        self.worked_hours = self.worked_hours + 1;
        self.is_thirsty = true;
    }
}

} // verus!
