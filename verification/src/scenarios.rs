//! Fixed starting positions for exercising career resolution: a plain
//! test birthplace, and the two conversion scenarios around the
//! Gytungrug-gated career on the slumfolk table.

use crate::backend::BaseBackend;
use crate::careers::Affiliation;
use crate::character::Character;
use crate::event::{change_rank, Event};
use crate::lifepath::career_ready;
use crate::locations::{CareerTable, Culture, Demographic, Faith, Location};
use vstd::prelude::*;

verus! {

/// A plain urban birthplace on the Valiant Empire table.
pub fn test_location() -> (r: Option<Location>)
    ensures
        r matches Some(loc) && loc == (Location {
            name: "test location",
            culture: Culture::Varlish,
            secondary_culture: Culture::Varlish,
            faith: Faith::Accorder,
            secondary_faith: Faith::Accorder,
            demographic: Demographic::Urban,
            career_table: CareerTable::ValiantEmpire,
            far_afield: false,
        }),
{
    Some(
        Location {
            name: "test location",
            culture: Culture::Varlish,
            secondary_culture: Culture::Varlish,
            faith: Faith::Accorder,
            secondary_faith: Faith::Accorder,
            demographic: Demographic::Urban,
            career_table: CareerTable::ValiantEmpire,
            far_afield: false,
        },
    )
}

fn scenario_character(b: &mut BaseBackend, culture: Culture)
    requires
        old(b)@.inv(),
    ensures
        final(b)@.inv(),
        career_ready(final(b)@),
        final(b)@.character.culture == Some(culture),
        final(b)@.character.faith == Some(Faith::Accorder),
        final(b)@.character.affiliation == Some(Affiliation::Slumfolk),
        final(b)@.character.rank == Some(3i8),
        final(b)@.character.birth_location matches Some(loc) && loc.career_table
            == CareerTable::ValiantEmpire,
        final(b)@.character.parents_career is None,
        final(b)@.character.careers.len() == 0,
        final(b)@.log == old(b)@.log,
{
    let mut c = Character::new();
    c.birth_location = test_location();
    c.culture = Some(culture);
    c.faith = Some(Faith::Accorder);
    c.affiliation = Some(Affiliation::Slumfolk);
    c.rank = Some(3);
    b.character = c;
}

/// A rank-three slumfolk Kremish follower of the Accord: resolving the
/// career at rank three must offer the conversion to Gytungrug behind
/// the culture-gated career.
pub fn kremish_accorder(b: &mut BaseBackend) -> (ev: Event)
    requires
        old(b)@.inv(),
    ensures
        final(b)@.inv(),
        career_ready(final(b)@),
        final(b)@.character.culture == Some(Culture::Kremish),
        final(b)@.character.faith == Some(Faith::Accorder),
        final(b)@.character.affiliation == Some(Affiliation::Slumfolk),
        final(b)@.character.rank == Some(3i8),
        final(b)@.character.parents_career is None,
        final(b)@.character.careers.len() == 0,
        ev == Event::Career(crate::lifepath::CareerProc {
            rank: 3i8,
            state: crate::lifepath::CareerState::Resolve,
        }),
        forall|bv: crate::backend::BackendV| #[trigger] ev.inv(bv),
{
    scenario_character(b, Culture::Kremish);
    change_rank(3)
}

/// The same start with a Varlish upbringing: the culture gate filters
/// the Gytungrug career out, so no conversion is ever offered and the
/// open career resolves directly.
pub fn non_kremish_accorder(b: &mut BaseBackend) -> (ev: Event)
    requires
        old(b)@.inv(),
    ensures
        final(b)@.inv(),
        career_ready(final(b)@),
        final(b)@.character.culture == Some(Culture::Varlish),
        final(b)@.character.faith == Some(Faith::Accorder),
        final(b)@.character.affiliation == Some(Affiliation::Slumfolk),
        final(b)@.character.rank == Some(3i8),
        final(b)@.character.parents_career is None,
        final(b)@.character.careers.len() == 0,
        ev == Event::Career(crate::lifepath::CareerProc {
            rank: 3i8,
            state: crate::lifepath::CareerState::Resolve,
        }),
        forall|bv: crate::backend::BackendV| #[trigger] ev.inv(bv),
{
    scenario_character(b, Culture::Varlish);
    change_rank(3)
}

} // verus!
