use vstd::prelude::*;

verus! {

use crate::glass::Glass;
use crate::intern::Intern;
use crate::user::{after_sip, User};

/// A shift is over once this many hours are worked.
pub const SHIFT_HOURS: u8 = 8;

/// What happened about drinking in one round of the shift.
#[derive(Clone, Copy, Debug, PartialEq, Eq, Structural)]
pub enum Hydration {
    /// The worker was not thirsty: nothing was drunk.
    Skip,
    /// The worker drank from a glass that was not empty.
    Drink,
    /// The glass was empty, so the intern filled it, then the worker drank.
    RefillThenDrink,
}

/// The action a round takes, from whether the glass is empty and whether the
/// worker is thirsty.
pub open spec fn hydration_for(glass: Glass, user: User) -> Hydration {
    if !user.is_thirsty {
        Hydration::Skip
    } else if glass.cur_volume == 0 {
        Hydration::RefillThenDrink
    } else {
        Hydration::Drink
    }
}

/// The glass after the drinking part of a round.
pub open spec fn hydrated_glass(glass: Glass, user: User) -> Glass {
    match hydration_for(glass, user) {
        Hydration::Skip => glass,
        Hydration::Drink => Glass { cur_volume: after_sip(glass.cur_volume as int) as u32, ..glass },
        Hydration::RefillThenDrink => Glass {
            cur_volume: after_sip(glass.max_volume as int) as u32,
            ..glass
        },
    }
}

/// The worker after the drinking part of a round.
pub open spec fn hydrated_user(user: User) -> User {
    User { is_thirsty: false, ..user }
}

/// The worker after logging an hour.
pub open spec fn worked_user(user: User) -> User {
    User { is_thirsty: true, worked_hours: (user.worked_hours + 1) as u8 }
}

/// The rest of a shift from the given worker and glass: the worker and the
/// glass at its end, and the hydration action of each round, in order.
pub open spec fn shift_from(user: User, glass: Glass) -> (User, Glass, Seq<Hydration>)
    decreases SHIFT_HOURS - user.worked_hours,
{
    if user.worked_hours >= SHIFT_HOURS {
        (user, glass, Seq::empty())
    } else {
        let rest = shift_from(worked_user(user), hydrated_glass(glass, user));
        (rest.0, rest.1, seq![hydration_for(glass, user)] + rest.2)
    }
}

/// The hours worked when a shift that starts at `hours` is over.
pub open spec fn hours_at_end(hours: u8) -> u8 {
    if hours < SHIFT_HOURS {
        SHIFT_HOURS
    } else {
        hours
    }
}

/// Whether the worker has done a full shift.
pub fn shift_done(user: &User) -> (r: bool)
    ensures
        r == (user.worked_hours >= SHIFT_HOURS),
{
    user.worked_hours >= SHIFT_HOURS
}

/// The drinking part of a round. A thirsty worker drinks; if the glass is
/// empty, an intern fills it first. A worker who is not thirsty does nothing.
pub fn hydrate(user: &mut User, glass: &mut Glass) -> (h: Hydration)
    ensures
        h == hydration_for(*old(glass), *old(user)),
        *final(glass) == hydrated_glass(*old(glass), *old(user)),
        *final(user) == if old(user).is_thirsty {
            hydrated_user(*old(user))
        } else {
            *old(user)
        },
        old(glass).wf() ==> final(glass).wf(),
{
    let empty = glass.empty();
    let thirsty = user.is_thirsty;
    if !empty && thirsty {
        user.drink(glass);
        Hydration::Drink
    } else if empty && thirsty {
        let intern = Intern {};
        intern.fill_glass(glass);
        user.drink(glass);
        Hydration::RefillThenDrink
    } else {
        Hydration::Skip
    }
}

/// Runs the rest of the shift with no pause between rounds: each round the
/// worker hydrates, then logs an hour, until `SHIFT_HOURS` are worked.
/// Returns the hydration action of each round, in order.
pub fn run_shift(user: &mut User, glass: &mut Glass) -> (actions: Vec<Hydration>)
    ensures
        (*final(user), *final(glass), actions@) == shift_from(*old(user), *old(glass)),
        final(user).worked_hours == hours_at_end(old(user).worked_hours),
        actions@.len() == hours_at_end(old(user).worked_hours) - old(user).worked_hours,
        old(glass).wf() ==> final(glass).wf(),
{
    let ghost start = (*user, *glass);
    let mut actions: Vec<Hydration> = Vec::new();
    while !shift_done(user)
        invariant
            shift_from(start.0, start.1) == (
                shift_from(*user, *glass).0,
                shift_from(*user, *glass).1,
                actions@ + shift_from(*user, *glass).2,
            ),
            start.0.worked_hours <= user.worked_hours <= hours_at_end(start.0.worked_hours),
            actions@.len() == user.worked_hours - start.0.worked_hours,
            start.1.wf() ==> glass.wf(),
        decreases SHIFT_HOURS - user.worked_hours,
    {
        let h = hydrate(user, glass);
        user.work();
        actions.push(h);
    }
    actions
}

} // verus!
