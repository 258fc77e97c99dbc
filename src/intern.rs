use vstd::prelude::*;

verus! {

use crate::glass::Glass;

/// The intern who refills glasses. It keeps no state of its own.
#[derive(Clone, Copy, Debug)]
pub struct Intern {}

impl Intern {
    /// Tops `glass` up to its maximum volume, whatever it held before.
    pub fn fill_glass(&self, glass: &mut Glass)
        ensures
            final(glass).cur_volume == old(glass).max_volume,
            final(glass).max_volume == old(glass).max_volume,
            final(glass).drink == old(glass).drink,
            final(glass).wf(),
    {
        glass.cur_volume = glass.max_volume;
    }
}

} // verus!
