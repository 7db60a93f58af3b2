//! The character record under construction: stats keyed by a closed
//! alphabet, traits, a birth omen, a birthplace with culture and faith,
//! affiliation, careers and a rank clamped to zero through nine.

use crate::careers::{Affiliation, Career};
use crate::locations::{Culture, Faith, Location};
use crate::perks::Perks;
use crate::stages::LifeStage;
use crate::text::{dec_digits, dec_usize};
use vstd::prelude::*;
use vstd::string::StringExecFns;

verus! {

/// The closed stat alphabet: five core stats of three subskills each, and
/// four non-skill stats.
#[derive(Copy, Clone, Debug, PartialEq, Eq, Structural)]
pub enum Stat {
    Arms,
    Block,
    Swing,
    Thrust,
    Face,
    Charm,
    Impose,
    Read,
    Hands,
    Aim,
    Craft,
    Control,
    Legs,
    Balance,
    Power,
    Dodge,
    Mind,
    Language,
    Lore,
    Observe,
    Magic,
    Luck,
    Stamina,
    Speed,
}

/// The slot a stat occupies in the character's stat table.
pub open spec fn spec_stat_index(s: Stat) -> int {
    match s {
        Stat::Arms => 0,
        Stat::Block => 1,
        Stat::Swing => 2,
        Stat::Thrust => 3,
        Stat::Face => 4,
        Stat::Charm => 5,
        Stat::Impose => 6,
        Stat::Read => 7,
        Stat::Hands => 8,
        Stat::Aim => 9,
        Stat::Craft => 10,
        Stat::Control => 11,
        Stat::Legs => 12,
        Stat::Balance => 13,
        Stat::Power => 14,
        Stat::Dodge => 15,
        Stat::Mind => 16,
        Stat::Language => 17,
        Stat::Lore => 18,
        Stat::Observe => 19,
        Stat::Magic => 20,
        Stat::Luck => 21,
        Stat::Stamina => 22,
        Stat::Speed => 23,
    }
}

pub const STAT_COUNT: usize = 24;

pub fn stat_index(s: Stat) -> (i: usize)
    ensures
        i as int == spec_stat_index(s),
        i < STAT_COUNT,
{
    match s {
        Stat::Arms => 0,
        Stat::Block => 1,
        Stat::Swing => 2,
        Stat::Thrust => 3,
        Stat::Face => 4,
        Stat::Charm => 5,
        Stat::Impose => 6,
        Stat::Read => 7,
        Stat::Hands => 8,
        Stat::Aim => 9,
        Stat::Craft => 10,
        Stat::Control => 11,
        Stat::Legs => 12,
        Stat::Balance => 13,
        Stat::Power => 14,
        Stat::Dodge => 15,
        Stat::Mind => 16,
        Stat::Language => 17,
        Stat::Lore => 18,
        Stat::Observe => 19,
        Stat::Magic => 20,
        Stat::Luck => 21,
        Stat::Stamina => 22,
        Stat::Speed => 23,
    }
}

pub open spec fn spec_stat_name(s: Stat) -> Seq<char> {
    match s {
        Stat::Arms => "Arms"@,
        Stat::Block => "Block"@,
        Stat::Swing => "Swing"@,
        Stat::Thrust => "Thrust"@,
        Stat::Face => "Face"@,
        Stat::Charm => "Charm"@,
        Stat::Impose => "Impose"@,
        Stat::Read => "Read"@,
        Stat::Hands => "Hands"@,
        Stat::Aim => "Aim"@,
        Stat::Craft => "Craft"@,
        Stat::Control => "Control"@,
        Stat::Legs => "Legs"@,
        Stat::Balance => "Balance"@,
        Stat::Power => "Power"@,
        Stat::Dodge => "Dodge"@,
        Stat::Mind => "Mind"@,
        Stat::Language => "Language"@,
        Stat::Lore => "Lore"@,
        Stat::Observe => "Observe"@,
        Stat::Magic => "Magic"@,
        Stat::Luck => "Luck"@,
        Stat::Stamina => "Stamina"@,
        Stat::Speed => "Speed"@,
    }
}

/// The three subskills of each core stat, in table order; a stat that is
/// not a core stat has none.
pub open spec fn spec_subskills(s: Stat) -> Seq<Stat> {
    match s {
        Stat::Arms => seq![Stat::Block, Stat::Swing, Stat::Thrust],
        Stat::Face => seq![Stat::Charm, Stat::Impose, Stat::Read],
        Stat::Hands => seq![Stat::Aim, Stat::Craft, Stat::Control],
        Stat::Legs => seq![Stat::Balance, Stat::Power, Stat::Dodge],
        Stat::Mind => seq![Stat::Language, Stat::Lore, Stat::Observe],
        _ => Seq::empty(),
    }
}

impl Stat {
    /// The stat's name as shown to the player.
    pub fn name(&self) -> (r: &'static str)
        ensures
            r@ == spec_stat_name(*self),
    {
        match self {
            Stat::Arms => "Arms",
            Stat::Block => "Block",
            Stat::Swing => "Swing",
            Stat::Thrust => "Thrust",
            Stat::Face => "Face",
            Stat::Charm => "Charm",
            Stat::Impose => "Impose",
            Stat::Read => "Read",
            Stat::Hands => "Hands",
            Stat::Aim => "Aim",
            Stat::Craft => "Craft",
            Stat::Control => "Control",
            Stat::Legs => "Legs",
            Stat::Balance => "Balance",
            Stat::Power => "Power",
            Stat::Dodge => "Dodge",
            Stat::Mind => "Mind",
            Stat::Language => "Language",
            Stat::Lore => "Lore",
            Stat::Observe => "Observe",
            Stat::Magic => "Magic",
            Stat::Luck => "Luck",
            Stat::Stamina => "Stamina",
            Stat::Speed => "Speed",
        }
    }

    pub fn subskills(&self) -> (r: Vec<Stat>)
        ensures
            r@ == spec_subskills(*self),
    {
        let r = match self {
            Stat::Arms => vec![Stat::Block, Stat::Swing, Stat::Thrust],
            Stat::Face => vec![Stat::Charm, Stat::Impose, Stat::Read],
            Stat::Hands => vec![Stat::Aim, Stat::Craft, Stat::Control],
            Stat::Legs => vec![Stat::Balance, Stat::Power, Stat::Dodge],
            Stat::Mind => vec![Stat::Language, Stat::Lore, Stat::Observe],
            _ => Vec::new(),
        };
        proof {
            assert(r@ =~= spec_subskills(*self));
        }
        r
    }
}

/// The five core stats, in the order they are offered for rolling.
pub open spec fn spec_core_stats() -> Seq<Stat> {
    seq![Stat::Arms, Stat::Face, Stat::Hands, Stat::Legs, Stat::Mind]
}

pub fn core_stats() -> (r: Vec<Stat>)
    ensures
        r@ == spec_core_stats(),
{
    let r = vec![Stat::Arms, Stat::Face, Stat::Hands, Stat::Legs, Stat::Mind];
    proof {
        assert(r@ =~= spec_core_stats());
    }
    r
}

/// A birth omen; prophetic signs carry a charge counter that is consumed,
/// never replenished.
#[derive(Copy, Clone, Debug, PartialEq, Eq, Structural)]
pub enum BirthOmen {
    ProsperousConstellations,
    PropheticSigns(usize),
    PracticallyMinded,
    ShootingStar,
    PortentsOfDoom,
}

/// The omen's name as shown to the player; prophetic signs with charges
/// left show their remaining uses.
pub open spec fn spec_omen_name(o: BirthOmen) -> Seq<char> {
    match o {
        BirthOmen::ProsperousConstellations => "Prosperous Constellations"@,
        BirthOmen::PropheticSigns(uses) => if uses == 0 {
            "Prophetic Signs"@
        } else {
            "Prophetic Signs (uses: "@ + dec_digits(uses as nat) + ")"@
        },
        BirthOmen::PracticallyMinded => "Practically-Minded"@,
        BirthOmen::ShootingStar => "Shooting Star"@,
        BirthOmen::PortentsOfDoom => "Portents of Doom"@,
    }
}

impl BirthOmen {
    pub fn describe(&self) -> (r: String)
        ensures
            r@ == spec_omen_name(*self),
    {
        match self {
            BirthOmen::ProsperousConstellations => String::from_str("Prosperous Constellations"),
            BirthOmen::PropheticSigns(uses) => {
                if *uses == 0 {
                    String::from_str("Prophetic Signs")
                } else {
                    let mut s = String::from_str("Prophetic Signs (uses: ");
                    s.append(dec_usize(*uses).as_str());
                    s.append(")");
                    s
                }
            },
            BirthOmen::PracticallyMinded => String::from_str("Practically-Minded"),
            BirthOmen::ShootingStar => String::from_str("Shooting Star"),
            BirthOmen::PortentsOfDoom => String::from_str("Portents of Doom"),
        }
    }
}

/// The five omens offered at birth; the prophetic signs start with two
/// charges.
pub open spec fn spec_birth_omens() -> Seq<BirthOmen> {
    seq![
        BirthOmen::ProsperousConstellations,
        BirthOmen::PropheticSigns(2),
        BirthOmen::PracticallyMinded,
        BirthOmen::ShootingStar,
        BirthOmen::PortentsOfDoom,
    ]
}

pub fn birth_omens() -> (r: Vec<BirthOmen>)
    ensures
        r@ == spec_birth_omens(),
{
    let r = vec![
        BirthOmen::ProsperousConstellations,
        BirthOmen::PropheticSigns(2),
        BirthOmen::PracticallyMinded,
        BirthOmen::ShootingStar,
        BirthOmen::PortentsOfDoom,
    ];
    proof {
        assert(r@ =~= spec_birth_omens());
    }
    r
}

/// The character record under construction.
pub struct Character {
    pub stats: Vec<Option<i8>>,
    pub name: String,
    pub traits: Vec<String>,
    pub omen: Option<BirthOmen>,
    pub perks: Perks,
    pub birth_location: Option<Location>,
    pub culture: Option<Culture>,
    pub faith: Option<Faith>,
    pub affiliation: Option<Affiliation>,
    pub parents_career: Option<Career>,
    pub careers: Vec<Career>,
    pub rank: Option<i8>,
    pub life_stage: LifeStage,
}

/// The abstract value of a character record.
pub ghost struct CharacterV {
    pub stats: Seq<Option<i8>>,
    pub name: Seq<char>,
    pub traits: Seq<Seq<char>>,
    pub omen: Option<BirthOmen>,
    pub perks: Perks,
    pub birth_location: Option<Location>,
    pub culture: Option<Culture>,
    pub faith: Option<Faith>,
    pub affiliation: Option<Affiliation>,
    pub parents_career: Option<Career>,
    pub careers: Seq<Career>,
    pub rank: Option<i8>,
    pub life_stage: LifeStage,
}

impl View for Character {
    type V = CharacterV;

    open spec fn view(&self) -> CharacterV {
        CharacterV {
            stats: self.stats@,
            name: self.name@,
            traits: self.traits@.map_values(|t: String| t@),
            omen: self.omen,
            perks: self.perks,
            birth_location: self.birth_location,
            culture: self.culture,
            faith: self.faith,
            affiliation: self.affiliation,
            parents_career: self.parents_career,
            careers: self.careers@,
            rank: self.rank,
            life_stage: self.life_stage,
        }
    }
}

impl CharacterV {
    /// Structural soundness of the record: a full stat table and a rank,
    /// when set, between zero and nine.
    pub open spec fn wf(self) -> bool {
        &&& self.stats.len() == STAT_COUNT
        &&& (self.rank matches Some(r) ==> 0 <= r <= 9)
    }

    /// The value held for a stat.
    pub open spec fn stat(self, s: Stat) -> Option<i8>
        recommends
            self.wf(),
    {
        self.stats[spec_stat_index(s)]
    }
}

impl Character {
    /// A blank record: no stats rolled, nothing decided, life not begun.
    pub fn new() -> (c: Character)
        ensures
            c@.wf(),
            c@.stats =~= Seq::new(STAT_COUNT as nat, |i: int| None::<i8>),
            c@.name =~= Seq::<char>::empty(),
            c@.traits =~= Seq::<Seq<char>>::empty(),
            c@.omen is None,
            c@.birth_location is None,
            c@.culture is None,
            c@.faith is None,
            c@.affiliation is None,
            c@.parents_career is None,
            c@.careers =~= Seq::<Career>::empty(),
            c@.rank is None,
            c@.life_stage == LifeStage::Intro,
            c@.perks.is_empty_spec(),
    {
        let mut stats: Vec<Option<i8>> = Vec::new();
        let mut i: usize = 0;
        while i < STAT_COUNT
            invariant
                0 <= i <= STAT_COUNT,
                stats@.len() == i,
                forall|j: int| 0 <= j < stats@.len() ==> #[trigger] stats@[j] is None,
            decreases STAT_COUNT - i,
        {
            stats.push(None);
            i = i + 1;
        }
        proof {
            assert(stats@ =~= Seq::new(STAT_COUNT as nat, |i: int| None::<i8>));
        }
        Character {
            stats,
            name: String::new(),
            traits: Vec::new(),
            omen: None,
            perks: Perks::new(),
            birth_location: None,
            culture: None,
            faith: None,
            affiliation: None,
            parents_career: None,
            careers: Vec::new(),
            rank: None,
            life_stage: LifeStage::Intro,
        }
    }
}

/// How a percentile roll fares against a target value.
#[derive(Copy, Clone, Debug, PartialEq, Eq, Structural)]
pub enum CheckResult {
    CriticalFailure,
    Failure,
    Success,
    HardSuccess,
    ExtremeSuccess,
    CriticalSuccess,
}

/// Grades a percentile roll against a target: one to five is always a
/// critical success, ninety-six and up a critical failure; otherwise a roll
/// within a quarter, half or all of the target grades extreme, hard or
/// plain success, and anything above the target fails.
pub open spec fn spec_check(to_beat: u64, roll: u64) -> CheckResult {
    if 1 <= roll <= 5 {
        CheckResult::CriticalSuccess
    } else if 96 <= roll <= 100 {
        CheckResult::CriticalFailure
    } else if roll * 4 <= to_beat {
        CheckResult::ExtremeSuccess
    } else if roll * 2 <= to_beat {
        CheckResult::HardSuccess
    } else if roll <= to_beat {
        CheckResult::Success
    } else {
        CheckResult::Failure
    }
}

/// Grades any roll; the quarter and half thresholds are compared in a
/// wider integer so that no magnitude of roll overflows them.
pub fn check(to_beat: u64, roll: u64) -> (r: CheckResult)
    ensures
        r == spec_check(to_beat, roll),
{
    if 1 <= roll && roll <= 5 {
        CheckResult::CriticalSuccess
    } else if 96 <= roll && roll <= 100 {
        CheckResult::CriticalFailure
    } else if (roll as u128) * 4 <= to_beat as u128 {
        CheckResult::ExtremeSuccess
    } else if (roll as u128) * 2 <= to_beat as u128 {
        CheckResult::HardSuccess
    } else if roll <= to_beat {
        CheckResult::Success
    } else {
        CheckResult::Failure
    }
}

} // verus!
