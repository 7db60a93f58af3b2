//! The coarse phases of generation, in the order the sequencer runs them.

use crate::backend::BaseBackend;
use crate::birth::{parents_ready, spec_birth_from_dice};
use crate::event::{affiliation_rank_careers, pick_omens, roll_core_stats, Event};
use vstd::prelude::*;

verus! {

/// The coarse phases of a life: the sequencer orders them and hands each
/// phase's interactive procedure to the driver.
#[derive(Copy, Clone, Debug, PartialEq, Eq, Structural)]
pub enum LifeStage {
    Intro,
    RollStats,
    RollParents,
    RollOmens,
    Newborn,
    Events,
}

impl Default for LifeStage {
    fn default() -> (r: Self)
        ensures
            r == LifeStage::Intro,
    {
        LifeStage::Intro
    }
}

impl LifeStage {
    /// Advances the sequencer one phase: runs the phase's immediate
    /// non-interactive step (rolling the birthplace before the guardians'
    /// story) and hands back the next stage with its interactive
    /// procedure; past the last implemented stage there is nothing more
    /// to run.
    pub fn next(&self, b: &mut BaseBackend) -> (r: Option<(LifeStage, Event)>)
        requires
            old(b)@.inv(),
        ensures
            final(b)@.inv(),
            *self == LifeStage::Intro ==> (r matches Some((stage, ev)) && stage
                == LifeStage::RollStats && ev.expecting() is Go && final(b)@ == old(b)@),
            *self == LifeStage::RollStats ==> (r matches Some((stage, ev)) && stage
                == LifeStage::RollParents && ev.expecting() is Go && parents_ready(final(b)@)
                && (exists|d6s: (i8, i8, i8), d3: i8, cd: (i8, i8, i8, i8), fd: (i8, i8)|
                final(b)@ == #[trigger] spec_birth_from_dice(old(b)@, d6s, d3, cd, fd))),
            *self == LifeStage::RollParents ==> (r matches Some((stage, ev)) && stage
                == LifeStage::RollOmens && ev.expecting() is Go && final(b)@ == old(b)@),
            *self != LifeStage::Intro && *self != LifeStage::RollStats && *self
                != LifeStage::RollParents ==> r is None && final(b)@ == old(b)@,
            r matches Some((stage, ev)) ==> forall|bv: crate::backend::BackendV| #[trigger] ev.inv(
                bv,
            ),
    {
        match self {
            LifeStage::Intro => Some((LifeStage::RollStats, roll_core_stats())),
            LifeStage::RollStats => {
                crate::birth::roll_location_of_birth(b);
                Some((LifeStage::RollParents, affiliation_rank_careers()))
            },
            LifeStage::RollParents => Some((LifeStage::RollOmens, pick_omens())),
            _ => None,
        }
    }
}

} // verus!
