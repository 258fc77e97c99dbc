//! A workplace hydration shift: a worker drinks from a glass, an intern
//! refills it when it runs dry, and every round the worker logs an hour of
//! work until the shift is over.
use vstd::prelude::*;

pub mod glass;
pub mod intern;
pub mod shift;
pub mod user;

verus! {

pub use crate::glass::{DrinkType, Glass, GLASS_CAPACITY};
pub use crate::intern::Intern;
pub use crate::shift::{hydrate, run_shift, shift_done, Hydration, SHIFT_HOURS};
pub use crate::user::{User, SIP_VOLUME};

} // verus!
