//! Affiliations, careers and the career tables: the static rule data the
//! life-path resolution machine switches on. Every lookup is a pure
//! function of its key, stated exactly by a spec mirror.

use crate::character::Stat;
use crate::locations::{CareerTable, Culture, Demographic, Faith, Location};
use crate::perks::Perk;
use vstd::prelude::*;
use vstd::string::StringExecFns;

verus! {

/// A character's social class, drawn from a location-specific table.
#[derive(Copy, Clone, Debug, PartialEq, Eq, Structural)]
pub enum Affiliation {
    Slumfolk,
    Criminals,
    Vagabonds,
    Peasantry,
    Performers,
    Plebeians,
    Watch,
    Army,
    Scholars,
    Gentry,
}

pub open spec fn spec_affiliation_name(a: Affiliation) -> Seq<char> {
    match a {
        Affiliation::Slumfolk => "Slumfolk"@,
        Affiliation::Criminals => "Criminals"@,
        Affiliation::Vagabonds => "Vagabonds"@,
        Affiliation::Peasantry => "Peasantry"@,
        Affiliation::Performers => "Performers"@,
        Affiliation::Plebeians => "Plebeians"@,
        Affiliation::Watch => "Watch"@,
        Affiliation::Army => "Army"@,
        Affiliation::Scholars => "Scholars"@,
        Affiliation::Gentry => "Gentry"@,
    }
}

impl Affiliation {
    /// The affiliation's name as shown to the player.
    pub fn name(&self) -> (r: &'static str)
        ensures
            r@ == spec_affiliation_name(*self),
    {
        match self {
            Affiliation::Slumfolk => "Slumfolk",
            Affiliation::Criminals => "Criminals",
            Affiliation::Vagabonds => "Vagabonds",
            Affiliation::Peasantry => "Peasantry",
            Affiliation::Performers => "Performers",
            Affiliation::Plebeians => "Plebeians",
            Affiliation::Watch => "Watch",
            Affiliation::Army => "Army",
            Affiliation::Scholars => "Scholars",
            Affiliation::Gentry => "Gentry",
        }
    }
}

/// The broad class a career belongs to, which fixes its skills and perks.
#[derive(Copy, Clone, Debug, PartialEq, Eq, Structural)]
pub enum CareerClass {
    Artisan,
    Beggar,
    ConArtist,
    Detective,
    Entertainer,
    Farmer,
    Guard,
    Hunter,
    Infantry,
    Knight,
    Labourer,
    Mariner,
    Noble,
    Official,
    Physician,
    Rogue,
    Scholar,
    Trader,
    Wayfarer,
    Zealot,
}

pub open spec fn spec_class_letter(c: CareerClass) -> char {
    match c {
        CareerClass::Artisan => 'A',
        CareerClass::Beggar => 'B',
        CareerClass::ConArtist => 'C',
        CareerClass::Detective => 'D',
        CareerClass::Entertainer => 'E',
        CareerClass::Farmer => 'F',
        CareerClass::Guard => 'G',
        CareerClass::Hunter => 'H',
        CareerClass::Infantry => 'I',
        CareerClass::Knight => 'K',
        CareerClass::Labourer => 'L',
        CareerClass::Mariner => 'M',
        CareerClass::Noble => 'N',
        CareerClass::Official => 'O',
        CareerClass::Physician => 'P',
        CareerClass::Rogue => 'R',
        CareerClass::Scholar => 'S',
        CareerClass::Trader => 'T',
        CareerClass::Wayfarer => 'W',
        CareerClass::Zealot => 'Z',
    }
}

pub open spec fn spec_class_name(c: CareerClass) -> Seq<char> {
    match c {
        CareerClass::Artisan => "Artisan"@,
        CareerClass::Beggar => "Beggar"@,
        CareerClass::ConArtist => "ConArtist"@,
        CareerClass::Detective => "Detective"@,
        CareerClass::Entertainer => "Entertainer"@,
        CareerClass::Farmer => "Farmer"@,
        CareerClass::Guard => "Guard"@,
        CareerClass::Hunter => "Hunter"@,
        CareerClass::Infantry => "Infantry"@,
        CareerClass::Knight => "Knight"@,
        CareerClass::Labourer => "Labourer"@,
        CareerClass::Mariner => "Mariner"@,
        CareerClass::Noble => "Noble"@,
        CareerClass::Official => "Official"@,
        CareerClass::Physician => "Physician"@,
        CareerClass::Rogue => "Rogue"@,
        CareerClass::Scholar => "Scholar"@,
        CareerClass::Trader => "Trader"@,
        CareerClass::Wayfarer => "Wayfarer"@,
        CareerClass::Zealot => "Zealot"@,
    }
}

/// The four skills a career class trains, the primary skill first.
pub open spec fn spec_class_skills(c: CareerClass) -> (Stat, Stat, Stat, Stat) {
    match c {
        CareerClass::Artisan => (Stat::Craft, Stat::Arms, Stat::Power, Stat::Swing),
        CareerClass::Beggar => (Stat::Legs, Stat::Charm, Stat::Mind, Stat::Read),
        CareerClass::ConArtist => (Stat::Face, Stat::Hands, Stat::Power, Stat::Read),
        CareerClass::Detective => (Stat::Read, Stat::Dodge, Stat::Lore, Stat::Observe),
        CareerClass::Entertainer => (Stat::Dodge, Stat::Charm, Stat::Face, Stat::Hands),
        CareerClass::Farmer => (Stat::Swing, Stat::Arms, Stat::Control, Stat::Hands),
        CareerClass::Guard => (Stat::Observe, Stat::Aim, Stat::Block, Stat::Impose),
        CareerClass::Hunter => (Stat::Aim, Stat::Balance, Stat::Observe, Stat::Swing),
        CareerClass::Infantry => (Stat::Thrust, Stat::Block, Stat::Dodge, Stat::Legs),
        CareerClass::Knight => (Stat::Block, Stat::Control, Stat::Impose, Stat::Thrust),
        CareerClass::Labourer => (Stat::Arms, Stat::Balance, Stat::Craft, Stat::Legs),
        CareerClass::Mariner => (Stat::Power, Stat::Arms, Stat::Balance, Stat::Control),
        CareerClass::Noble => (Stat::Impose, Stat::Aim, Stat::Block, Stat::Language),
        CareerClass::Official => (Stat::Language, Stat::Face, Stat::Impose, Stat::Mind),
        CareerClass::Physician => (Stat::Hands, Stat::Craft, Stat::Impose, Stat::Thrust),
        CareerClass::Rogue => (Stat::Balance, Stat::Hands, Stat::Power, Stat::Thrust),
        CareerClass::Scholar => (Stat::Lore, Stat::Language, Stat::Legs, Stat::Mind),
        CareerClass::Trader => (Stat::Charm, Stat::Face, Stat::Language, Stat::Observe),
        CareerClass::Wayfarer => (Stat::Control, Stat::Aim, Stat::Dodge, Stat::Observe),
        CareerClass::Zealot => (Stat::Mind, Stat::Charm, Stat::Lore, Stat::Read),
    }
}

impl CareerClass {
    pub fn letter(&self) -> (r: char)
        ensures
            r == spec_class_letter(*self),
    {
        match self {
            CareerClass::Artisan => 'A',
            CareerClass::Beggar => 'B',
            CareerClass::ConArtist => 'C',
            CareerClass::Detective => 'D',
            CareerClass::Entertainer => 'E',
            CareerClass::Farmer => 'F',
            CareerClass::Guard => 'G',
            CareerClass::Hunter => 'H',
            CareerClass::Infantry => 'I',
            CareerClass::Knight => 'K',
            CareerClass::Labourer => 'L',
            CareerClass::Mariner => 'M',
            CareerClass::Noble => 'N',
            CareerClass::Official => 'O',
            CareerClass::Physician => 'P',
            CareerClass::Rogue => 'R',
            CareerClass::Scholar => 'S',
            CareerClass::Trader => 'T',
            CareerClass::Wayfarer => 'W',
            CareerClass::Zealot => 'Z',
        }
    }

    /// The class's name as shown to the player.
    pub fn name(&self) -> (r: &'static str)
        ensures
            r@ == spec_class_name(*self),
    {
        match self {
            CareerClass::Artisan => "Artisan",
            CareerClass::Beggar => "Beggar",
            CareerClass::ConArtist => "ConArtist",
            CareerClass::Detective => "Detective",
            CareerClass::Entertainer => "Entertainer",
            CareerClass::Farmer => "Farmer",
            CareerClass::Guard => "Guard",
            CareerClass::Hunter => "Hunter",
            CareerClass::Infantry => "Infantry",
            CareerClass::Knight => "Knight",
            CareerClass::Labourer => "Labourer",
            CareerClass::Mariner => "Mariner",
            CareerClass::Noble => "Noble",
            CareerClass::Official => "Official",
            CareerClass::Physician => "Physician",
            CareerClass::Rogue => "Rogue",
            CareerClass::Scholar => "Scholar",
            CareerClass::Trader => "Trader",
            CareerClass::Wayfarer => "Wayfarer",
            CareerClass::Zealot => "Zealot",
        }
    }

    pub fn skills(&self) -> (r: (Stat, Stat, Stat, Stat))
        ensures
            r == spec_class_skills(*self),
    {
        match self {
            CareerClass::Artisan => (Stat::Craft, Stat::Arms, Stat::Power, Stat::Swing),
            CareerClass::Beggar => (Stat::Legs, Stat::Charm, Stat::Mind, Stat::Read),
            CareerClass::ConArtist => (Stat::Face, Stat::Hands, Stat::Power, Stat::Read),
            CareerClass::Detective => (Stat::Read, Stat::Dodge, Stat::Lore, Stat::Observe),
            CareerClass::Entertainer => (Stat::Dodge, Stat::Charm, Stat::Face, Stat::Hands),
            CareerClass::Farmer => (Stat::Swing, Stat::Arms, Stat::Control, Stat::Hands),
            CareerClass::Guard => (Stat::Observe, Stat::Aim, Stat::Block, Stat::Impose),
            CareerClass::Hunter => (Stat::Aim, Stat::Balance, Stat::Observe, Stat::Swing),
            CareerClass::Infantry => (Stat::Thrust, Stat::Block, Stat::Dodge, Stat::Legs),
            CareerClass::Knight => (Stat::Block, Stat::Control, Stat::Impose, Stat::Thrust),
            CareerClass::Labourer => (Stat::Arms, Stat::Balance, Stat::Craft, Stat::Legs),
            CareerClass::Mariner => (Stat::Power, Stat::Arms, Stat::Balance, Stat::Control),
            CareerClass::Noble => (Stat::Impose, Stat::Aim, Stat::Block, Stat::Language),
            CareerClass::Official => (Stat::Language, Stat::Face, Stat::Impose, Stat::Mind),
            CareerClass::Physician => (Stat::Hands, Stat::Craft, Stat::Impose, Stat::Thrust),
            CareerClass::Rogue => (Stat::Balance, Stat::Hands, Stat::Power, Stat::Thrust),
            CareerClass::Scholar => (Stat::Lore, Stat::Language, Stat::Legs, Stat::Mind),
            CareerClass::Trader => (Stat::Charm, Stat::Face, Stat::Language, Stat::Observe),
            CareerClass::Wayfarer => (Stat::Control, Stat::Aim, Stat::Dodge, Stat::Observe),
            CareerClass::Zealot => (Stat::Mind, Stat::Charm, Stat::Lore, Stat::Read),
        }
    }
}

impl CareerClass {
    /// The class letter as a one-character string.
    pub fn letter_str(&self) -> (r: &'static str)
        ensures
            r@ == seq![spec_class_letter(*self)],
    {
        proof {
            reveal_strlit("A");
            reveal_strlit("B");
            reveal_strlit("C");
            reveal_strlit("D");
            reveal_strlit("E");
            reveal_strlit("F");
            reveal_strlit("G");
            reveal_strlit("H");
            reveal_strlit("I");
            reveal_strlit("K");
            reveal_strlit("L");
            reveal_strlit("M");
            reveal_strlit("N");
            reveal_strlit("O");
            reveal_strlit("P");
            reveal_strlit("R");
            reveal_strlit("S");
            reveal_strlit("T");
            reveal_strlit("W");
            reveal_strlit("Z");
        }
        let r: &'static str = match self {
            CareerClass::Artisan => "A",
            CareerClass::Beggar => "B",
            CareerClass::ConArtist => "C",
            CareerClass::Detective => "D",
            CareerClass::Entertainer => "E",
            CareerClass::Farmer => "F",
            CareerClass::Guard => "G",
            CareerClass::Hunter => "H",
            CareerClass::Infantry => "I",
            CareerClass::Knight => "K",
            CareerClass::Labourer => "L",
            CareerClass::Mariner => "M",
            CareerClass::Noble => "N",
            CareerClass::Official => "O",
            CareerClass::Physician => "P",
            CareerClass::Rogue => "R",
            CareerClass::Scholar => "S",
            CareerClass::Trader => "T",
            CareerClass::Wayfarer => "W",
            CareerClass::Zealot => "Z",
        };
        proof {
            assert(r@ =~= seq![spec_class_letter(*self)]);
        }
        r
    }
}

/// A named career and its class.
#[derive(Copy, Clone, Debug, PartialEq, Eq)]
pub struct Career {
    pub name: &'static str,
    pub class: CareerClass,
}

/// A career as shown in a selection: its name with its class letter.
pub open spec fn spec_career_display(c: Career) -> Seq<char> {
    c.name@ + " ("@ + seq![spec_class_letter(c.class)] + ")"@
}

impl Career {
    /// The career as shown in a selection.
    pub fn display(&self) -> (r: String)
        ensures
            r@ == spec_career_display(*self),
    {
        let mut s = String::from_str(self.name);
        s.append(" (");
        s.append(self.class.letter_str());
        s.append(")");
        s
    }
}

/// Two careers name the same career when their names and classes agree.
pub open spec fn spec_career_eq(a: Career, b: Career) -> bool {
    a.name@ == b.name@ && a.class == b.class
}

/// The faith or faith-and-culture gate an affiliation or career carries.
#[derive(Copy, Clone, Debug, PartialEq, Eq, Structural)]
pub enum CareerTableStar {
    Open,
    NeedsFaith(Faith),
    NeedsFaithAndCulture(Faith, Culture),
}

/// One resolved entry of the career table: a career (gated or not), a
/// choice of two, a fixed rank to remain at, a change of affiliation, or a
/// fresh affiliation roll with or without disadvantage.
#[derive(Copy, Clone, Debug)]
pub enum CareerTableEntry {
    Career(Career, CareerTableStar),
    Careers((Career, CareerTableStar), (Career, CareerTableStar)),
    RemainAtRank(i8),
    ChangeAffiliation(Affiliation),
    RerollWithDisadvantage,
    Reroll,
}

/// The per-career requirement rules have no bearing on generation; this
/// lookup therefore has nothing to return.
pub fn get_career_requirements() {
}

/// A single unstarred career entry.
pub open spec fn spec_entry1(name: &'static str, class: CareerClass) -> CareerTableEntry {
    CareerTableEntry::Career(Career { name, class }, CareerTableStar::Open)
}

/// A choice of two unstarred careers.
pub open spec fn spec_entry2(
    n1: &'static str,
    c1: CareerClass,
    n2: &'static str,
    c2: CareerClass,
) -> CareerTableEntry {
    CareerTableEntry::Careers(
        (Career { name: n1, class: c1 }, CareerTableStar::Open),
        (Career { name: n2, class: c2 }, CareerTableStar::Open),
    )
}

/// A choice of two careers, the second one gated.
pub open spec fn spec_entry2s(
    n1: &'static str,
    c1: CareerClass,
    n2: &'static str,
    c2: CareerClass,
    star2: CareerTableStar,
) -> CareerTableEntry {
    CareerTableEntry::Careers(
        (Career { name: n1, class: c1 }, CareerTableStar::Open),
        (Career { name: n2, class: c2 }, star2),
    )
}

fn entry1(name: &'static str, class: CareerClass) -> (r: CareerTableEntry)
    ensures
        r == spec_entry1(name, class),
{
    CareerTableEntry::Career(Career { name, class }, CareerTableStar::Open)
}

fn entry2(n1: &'static str, c1: CareerClass, n2: &'static str, c2: CareerClass) -> (r:
    CareerTableEntry)
    ensures
        r == spec_entry2(n1, c1, n2, c2),
{
    CareerTableEntry::Careers(
        (Career { name: n1, class: c1 }, CareerTableStar::Open),
        (Career { name: n2, class: c2 }, CareerTableStar::Open),
    )
}

fn entry2s(
    n1: &'static str,
    c1: CareerClass,
    n2: &'static str,
    c2: CareerClass,
    star2: CareerTableStar,
) -> (r: CareerTableEntry)
    ensures
        r == spec_entry2s(n1, c1, n2, c2, star2),
{
    CareerTableEntry::Careers(
        (Career { name: n1, class: c1 }, CareerTableStar::Open),
        (Career { name: n2, class: c2 }, star2),
    )
}

/// The career table entry for an affiliation and rank at a location.
pub open spec fn spec_get_careers(loc: Location, affiliation: Affiliation, rank: i8) -> CareerTableEntry {
    match loc.career_table {
        CareerTable::ValiantEmpire => match affiliation {
            Affiliation::Slumfolk => if rank == 0 {
                spec_entry1("Outcast", CareerClass::Beggar)
            } else if rank <= 2 {
                spec_entry2("Militia", CareerClass::Guard, "Odd Jobber", CareerClass::Labourer)
            } else if rank == 3 {
                spec_entry2s(
                    "Peddler",
                    CareerClass::ConArtist,
                    "Dewisetic",
                    CareerClass::Zealot,
                    CareerTableStar::NeedsFaithAndCulture(Faith::Gytungrug, Culture::Kremish),
                )
            } else {
                CareerTableEntry::ChangeAffiliation(Affiliation::Plebeians)
            },
            Affiliation::Criminals => if rank == 0 {
                spec_entry1("Thief", CareerClass::Rogue)
            } else if rank == 1 {
                spec_entry2("Thief", CareerClass::Rogue, "Bodyguard", CareerClass::Guard)
            } else if rank == 2 {
                spec_entry2("Sawbones", CareerClass::Physician, "Smuggler", CareerClass::Mariner)
            } else if rank == 3 {
                spec_entry2(
                    "Counterfeiter",
                    CareerClass::ConArtist,
                    "Headhunter",
                    CareerClass::Detective,
                )
            } else if rank == 4 {
                spec_entry2("Fence", CareerClass::Trader, "Gang Boss", CareerClass::Knight)
            } else if rank == 5 {
                spec_entry1("Gang Boss", CareerClass::Knight)
            } else {
                CareerTableEntry::RemainAtRank(5)
            },
            Affiliation::Vagabonds => if rank <= 1 {
                spec_entry2("Deserter", CareerClass::Rogue, "Poacher", CareerClass::Hunter)
            } else if rank == 2 {
                spec_entry2("Smuggler", CareerClass::Mariner, "Highwayman", CareerClass::Wayfarer)
            } else if rank == 3 {
                spec_entry2("Sellsword", CareerClass::Infantry, "Highwayman", CareerClass::Wayfarer)
            } else if rank == 4 {
                spec_entry2("Sellsword", CareerClass::Infantry, "Sawbones", CareerClass::Physician)
            } else if rank <= 6 {
                spec_entry2("Field Captain", CareerClass::Knight, "Baneman", CareerClass::Detective)
            } else {
                CareerTableEntry::RemainAtRank(6)
            },
            Affiliation::Peasantry => if rank <= 1 {
                spec_entry2("Woodsman", CareerClass::Hunter, "Serf", CareerClass::Labourer)
            } else if rank <= 3 {
                spec_entry2("Fisher", CareerClass::Mariner, "Mootman", CareerClass::Farmer)
            } else if rank <= 5 {
                spec_entry2("Herder", CareerClass::Trader, "Smallholder", CareerClass::Farmer)
            } else {
                CareerTableEntry::RemainAtRank(5)
            },
            Affiliation::Performers => if rank <= 1 {
                spec_entry1("Penny Mummer", CareerClass::Beggar)
            } else if rank <= 3 {
                spec_entry1("Mummer", CareerClass::Entertainer)
            } else if rank == 4 {
                spec_entry2("Herald", CareerClass::Entertainer, "Proprietor", CareerClass::Trader)
            } else if rank == 5 {
                spec_entry1("Proprietor", CareerClass::Trader)
            } else {
                CareerTableEntry::RemainAtRank(5)
            },
            Affiliation::Plebeians => if rank == 0 {
                CareerTableEntry::RerollWithDisadvantage
            } else if rank == 1 {
                spec_entry1("Outcast", CareerClass::Beggar)
            } else if rank == 2 {
                spec_entry2("Peddler", CareerClass::ConArtist, "Odd Jobber", CareerClass::Labourer)
            } else if rank <= 4 {
                spec_entry2s(
                    "Courtesan",
                    CareerClass::Entertainer,
                    "Lodge Artisan",
                    CareerClass::Artisan,
                    CareerTableStar::NeedsFaith(Faith::Accorder),
                )
            } else if rank <= 6 {
                spec_entry2(
                    "Proprietor",
                    CareerClass::Trader,
                    "Master Artisan",
                    CareerClass::Artisan,
                )
            } else {
                CareerTableEntry::RemainAtRank(6)
            },
            Affiliation::Watch => if rank <= 1 {
                CareerTableEntry::ChangeAffiliation(Affiliation::Scholars)
            } else if rank <= 3 {
                spec_entry1("Inquisitor", CareerClass::Infantry)
            } else if rank == 4 {
                spec_entry2(
                    "Inquisition Seer",
                    CareerClass::Detective,
                    "Bluecoat",
                    CareerClass::Hunter,
                )
            } else if rank == 5 {
                spec_entry2(
                    "Inquisition Seer",
                    CareerClass::Detective,
                    "Bluecoat Seer",
                    CareerClass::Scholar,
                )
            } else if rank <= 7 {
                spec_entry2(
                    "Sceptre Scribe",
                    CareerClass::Official,
                    "Temple Guardian",
                    CareerClass::Knight,
                )
            } else {
                CareerTableEntry::RemainAtRank(7)
            },
            Affiliation::Army => if rank <= 1 {
                CareerTableEntry::ChangeAffiliation(Affiliation::Vagabonds)
            } else if rank == 2 {
                spec_entry2("Watch", CareerClass::Guard, "Auxiliary", CareerClass::Hunter)
            } else if rank == 3 {
                spec_entry2("Sailor", CareerClass::Mariner, "Legionnaire", CareerClass::Infantry)
            } else if rank == 4 {
                spec_entry2("Medicus", CareerClass::Physician, "Legionnaire", CareerClass::Infantry)
            } else if rank == 5 {
                spec_entry2("Medicus", CareerClass::Physician, "Courier", CareerClass::Wayfarer)
            } else if rank == 6 {
                spec_entry1("Field Captain", CareerClass::Knight)
            } else {
                CareerTableEntry::RemainAtRank(6)
            },
            Affiliation::Scholars => if rank == 0 {
                CareerTableEntry::RerollWithDisadvantage
            } else if rank == 1 {
                spec_entry1("Mendicant", CareerClass::Beggar)
            } else if rank == 2 {
                spec_entry2("Mendicant", CareerClass::Beggar, "Apothecary", CareerClass::Physician)
            } else if rank == 3 {
                spec_entry2("Cleric", CareerClass::Zealot, "Apothecary", CareerClass::Physician)
            } else if rank <= 5 {
                spec_entry2("Cleric", CareerClass::Zealot, "Temple Seer", CareerClass::Scholar)
            } else if rank <= 7 {
                spec_entry1("Sceptre Scribe", CareerClass::Official)
            } else {
                CareerTableEntry::RemainAtRank(7)
            },
            Affiliation::Gentry => if rank <= 3 {
                CareerTableEntry::Reroll
            } else if rank == 4 {
                spec_entry1("Prefect", CareerClass::Official)
            } else if rank == 5 {
                spec_entry2s(
                    "Prefect",
                    CareerClass::Official,
                    "Lodge Officiary",
                    CareerClass::Zealot,
                    CareerTableStar::NeedsFaith(Faith::Accorder),
                )
            } else if rank == 6 {
                spec_entry2s(
                    "Courtier",
                    CareerClass::Official,
                    "Lodge Officiary",
                    CareerClass::Zealot,
                    CareerTableStar::NeedsFaith(Faith::Accorder),
                )
            } else if rank <= 8 {
                spec_entry2("Grandee", CareerClass::Noble, "Centurion", CareerClass::Knight)
            } else {
                spec_entry1("Liege Lord", CareerClass::Noble)
            },
        },
        CareerTable::Nivena => match affiliation {
            Affiliation::Slumfolk => if rank == 0 {
                spec_entry1("Outcast", CareerClass::Beggar)
            } else if rank <= 2 {
                spec_entry2("Militia", CareerClass::Guard, "OddJobber", CareerClass::Labourer)
            } else if rank == 3 {
                spec_entry2s(
                    "Peddler",
                    CareerClass::ConArtist,
                    "Dewisetic",
                    CareerClass::Zealot,
                    CareerTableStar::NeedsFaithAndCulture(Faith::Gytungrug, Culture::Kremish),
                )
            } else {
                CareerTableEntry::ChangeAffiliation(Affiliation::Plebeians)
            },
            Affiliation::Criminals => if rank == 0 {
                spec_entry1("Thief", CareerClass::Rogue)
            } else if rank == 1 {
                spec_entry2("Thief", CareerClass::Rogue, "Bodyguard", CareerClass::Guard)
            } else if rank == 2 {
                spec_entry2("Sawbones", CareerClass::Physician, "Smuggler", CareerClass::Mariner)
            } else if rank == 3 {
                spec_entry2(
                    "Counterfeiter",
                    CareerClass::ConArtist,
                    "Headhunter",
                    CareerClass::Detective,
                )
            } else if rank == 4 {
                spec_entry2("Fence", CareerClass::Trader, "Gang Boss", CareerClass::Knight)
            } else if rank == 5 {
                spec_entry1("Gang Boss", CareerClass::Knight)
            } else {
                CareerTableEntry::RemainAtRank(6)
            },
            Affiliation::Vagabonds => if rank <= 1 {
                spec_entry2("Deserter", CareerClass::Rogue, "Woodsman", CareerClass::Hunter)
            } else if rank == 2 {
                spec_entry2("Smuggler", CareerClass::Mariner, "Highwayman", CareerClass::Wayfarer)
            } else if rank == 3 {
                spec_entry2("Sellsword", CareerClass::Infantry, "Highwayman", CareerClass::Wayfarer)
            } else if rank == 4 {
                spec_entry2("Sellsword", CareerClass::Infantry, "Sawbones", CareerClass::Physician)
            } else if rank <= 6 {
                spec_entry2("Field Captain", CareerClass::Knight, "Baneman", CareerClass::Detective)
            } else {
                CareerTableEntry::RemainAtRank(6)
            },
            Affiliation::Peasantry => if rank <= 1 {
                spec_entry2("Woodsman", CareerClass::Hunter, "Serf", CareerClass::Labourer)
            } else if rank <= 3 {
                spec_entry2("Fisher", CareerClass::Mariner, "Mootman", CareerClass::Farmer)
            } else if rank <= 5 {
                spec_entry2("Herder", CareerClass::Trader, "Smallholder", CareerClass::Farmer)
            } else {
                CareerTableEntry::RemainAtRank(6)
            },
            Affiliation::Performers => if rank == 0 {
                spec_entry1("Penny Mummer", CareerClass::Beggar)
            } else if rank == 1 {
                spec_entry2(
                    "Lodge Apprentice",
                    CareerClass::Labourer,
                    "Bodyguard",
                    CareerClass::Guard,
                )
            } else if rank == 2 {
                spec_entry2("Mummer", CareerClass::Entertainer, "Bodyguard", CareerClass::Guard)
            } else if rank == 3 {
                spec_entry2(
                    "Mummer",
                    CareerClass::Entertainer,
                    "Lodge Merchant",
                    CareerClass::Trader,
                )
            } else if rank == 4 {
                spec_entry2(
                    "Herald",
                    CareerClass::Entertainer,
                    "Lodge Merchant",
                    CareerClass::Trader,
                )
            } else if rank == 5 {
                spec_entry1("Lodge Officiary", CareerClass::Zealot)
            } else {
                CareerTableEntry::RemainAtRank(6)
            },
            Affiliation::Plebeians => if rank <= 1 {
                CareerTableEntry::RerollWithDisadvantage
            } else if rank <= 3 {
                spec_entry2(
                    "Bodyguard",
                    CareerClass::Guard,
                    "Lodge Apprentice",
                    CareerClass::Labourer,
                )
            } else if rank == 4 {
                spec_entry2(
                    "Lodge Merchant",
                    CareerClass::Trader,
                    "Lodge Artisan",
                    CareerClass::Artisan,
                )
            } else if rank == 5 {
                spec_entry2(
                    "Lodge Artisan",
                    CareerClass::Artisan,
                    "Lodge Officiary",
                    CareerClass::Zealot,
                )
            } else if rank == 6 {
                spec_entry1("Lodge Officiary", CareerClass::Zealot)
            } else {
                CareerTableEntry::RemainAtRank(6)
            },
            Affiliation::Watch => if rank <= 1 {
                CareerTableEntry::ChangeAffiliation(Affiliation::Criminals)
            } else if rank == 2 {
                spec_entry1("Watch", CareerClass::Guard)
            } else if rank == 3 {
                spec_entry2("Watch", CareerClass::Guard, "Courier", CareerClass::Wayfarer)
            } else if rank == 4 {
                spec_entry2(
                    "Watch Sergeant",
                    CareerClass::Detective,
                    "Pale Agent",
                    CareerClass::Rogue,
                )
            } else if rank == 5 {
                spec_entry2("Courtier", CareerClass::Official, "Pale Agent", CareerClass::Rogue)
            } else if rank == 6 {
                spec_entry2(
                    "Courtier",
                    CareerClass::Official,
                    "Pale Sergeant",
                    CareerClass::ConArtist,
                )
            } else {
                CareerTableEntry::RemainAtRank(6)
            },
            Affiliation::Army => if rank <= 1 {
                CareerTableEntry::ChangeAffiliation(Affiliation::Vagabonds)
            } else if rank == 2 {
                spec_entry2("Militia", CareerClass::Guard, "Spotter", CareerClass::Rogue)
            } else if rank <= 4 {
                spec_entry2("Legionary", CareerClass::Infantry, "Archer", CareerClass::Wayfarer)
            } else if rank == 5 {
                spec_entry2("Landed Veteran", CareerClass::Farmer, "Prefect", CareerClass::Official)
            } else if rank == 6 {
                spec_entry2("Centurion", CareerClass::Knight, "Prefect", CareerClass::Official)
            } else if rank == 7 {
                spec_entry2("Centurion", CareerClass::Knight, "Senator", CareerClass::Noble)
            } else {
                CareerTableEntry::RemainAtRank(7)
            },
            Affiliation::Scholars => if rank <= 2 {
                CareerTableEntry::Reroll
            } else if rank == 3 {
                spec_entry1("Medicus", CareerClass::Physician)
            } else if rank == 4 {
                spec_entry2(
                    "Medicus",
                    CareerClass::Physician,
                    "Lodge Scribe",
                    CareerClass::Official,
                )
            } else if rank == 5 {
                spec_entry2(
                    "Lodge Scribe",
                    CareerClass::Official,
                    "Lodge Scholar",
                    CareerClass::Scholar,
                )
            } else if rank == 6 {
                spec_entry2(
                    "Lodge Officiary",
                    CareerClass::Zealot,
                    "Lodge Scholar",
                    CareerClass::Scholar,
                )
            } else if rank == 7 {
                spec_entry1("Lodge Officiary", CareerClass::Zealot)
            } else {
                CareerTableEntry::RemainAtRank(7)
            },
            Affiliation::Gentry => if rank <= 1 {
                CareerTableEntry::RerollWithDisadvantage
            } else if rank == 2 {
                spec_entry1("Bodyguard", CareerClass::Guard)
            } else if rank == 3 {
                spec_entry2("Bodyguard", CareerClass::Guard, "SaIlor", CareerClass::Mariner)
            } else if rank == 4 {
                spec_entry2("Caravan Guard", CareerClass::Wayfarer, "Sailor", CareerClass::Mariner)
            } else if rank == 5 {
                spec_entry2(
                    "Caravan Guard",
                    CareerClass::Wayfarer,
                    "Lodge Merchant",
                    CareerClass::Trader,
                )
            } else if rank == 6 {
                spec_entry1("Lodge Merchant", CareerClass::Trader)
            } else if rank == 7 {
                spec_entry2(
                    "Lodge Merchant",
                    CareerClass::Trader,
                    "Lodge Officiary",
                    CareerClass::Zealot,
                )
            } else if rank == 8 {
                spec_entry1("Lodge Officiary", CareerClass::Zealot)
            } else {
                CareerTableEntry::RemainAtRank(8)
            },
        },
        CareerTable::Marolaw => match affiliation {
            Affiliation::Slumfolk => if rank == 0 {
                spec_entry2("Üslings", CareerClass::Beggar, "Clan Thrall", CareerClass::Labourer)
            } else if rank == 1 {
                spec_entry2(
                    "Galley Thrall",
                    CareerClass::Mariner,
                    "Clan Thrall",
                    CareerClass::Labourer,
                )
            } else if rank == 2 {
                spec_entry2("Galley Thrall", CareerClass::Mariner, "Peddler", CareerClass::ConArtist)
            } else if rank == 3 {
                spec_entry2("March Thrall", CareerClass::Farmer, "Courtesan", CareerClass::Entertainer)
            } else {
                CareerTableEntry::ChangeAffiliation(Affiliation::Criminals)
            },
            Affiliation::Criminals => if rank == 0 {
                spec_entry1("Thief", CareerClass::Rogue)
            } else if rank == 1 {
                spec_entry2("Thief", CareerClass::Rogue, "Bodyguard", CareerClass::Guard)
            } else if rank == 2 {
                spec_entry2("Sawbones", CareerClass::Physician, "Smuggler", CareerClass::Mariner)
            } else if rank == 3 {
                spec_entry2(
                    "Counterfeiter",
                    CareerClass::ConArtist,
                    "Headhunter",
                    CareerClass::Detective,
                )
            } else if rank == 4 {
                spec_entry2("Fence", CareerClass::Trader, "Gang Boss", CareerClass::Knight)
            } else if rank == 5 {
                spec_entry1("Gang Boss", CareerClass::Knight)
            } else {
                CareerTableEntry::RemainAtRank(5)
            },
            Affiliation::Vagabonds => if rank <= 1 {
                spec_entry2("Deserter", CareerClass::Rogue, "Poacher", CareerClass::Hunter)
            } else if rank == 2 {
                spec_entry2("Smuggler", CareerClass::Mariner, "Highwayman", CareerClass::Wayfarer)
            } else if rank == 3 {
                spec_entry2("Sellsword", CareerClass::Infantry, "Highwayman", CareerClass::Wayfarer)
            } else if rank == 4 {
                spec_entry2("Sellsword", CareerClass::Infantry, "Sawbones", CareerClass::Physician)
            } else if rank <= 6 {
                spec_entry2("Field Captain", CareerClass::Knight, "Baneman", CareerClass::Detective)
            } else {
                CareerTableEntry::ChangeAffiliation(Affiliation::Gentry)
            },
            Affiliation::Peasantry => if rank <= 1 {
                spec_entry2("Woodsman", CareerClass::Hunter, "Serf", CareerClass::Labourer)
            } else if rank <= 3 {
                spec_entry2("Fisher", CareerClass::Mariner, "Mootman", CareerClass::Farmer)
            } else if rank <= 5 {
                spec_entry2("Herder", CareerClass::Trader, "Smallholder", CareerClass::Farmer)
            } else {
                CareerTableEntry::ChangeAffiliation(Affiliation::Gentry)
            },
            Affiliation::Performers => if rank == 0 {
                spec_entry1("Üstaler", CareerClass::ConArtist)
            } else if rank == 1 {
                spec_entry2("Üstaler", CareerClass::ConArtist, "Skald", CareerClass::Entertainer)
            } else if rank == 2 {
                spec_entry2("Lundstaler", CareerClass::ConArtist, "Skald", CareerClass::Entertainer)
            } else if rank == 3 {
                spec_entry2("Lundstaler", CareerClass::Physician, "Runescribe", CareerClass::Artisan)
            } else if rank == 4 {
                spec_entry2("Speaker", CareerClass::Zealot, "Runescribe", CareerClass::Artisan)
            } else if rank == 5 {
                spec_entry2("Speaker", CareerClass::Zealot, "Chronicler", CareerClass::Scholar)
            } else {
                CareerTableEntry::RemainAtRank(5)
            },
            Affiliation::Plebeians | Affiliation::Army | Affiliation::Gentry => if rank <= 1 {
                CareerTableEntry::ChangeAffiliation(Affiliation::Vagabonds)
            } else if rank == 2 {
                spec_entry2("Drabling", CareerClass::Guard, "Sailor", CareerClass::Mariner)
            } else if rank == 3 {
                spec_entry2("Clan Crafter", CareerClass::Artisan, "Sailor", CareerClass::Mariner)
            } else if rank == 4 {
                spec_entry2(
                    "Clan Crafter",
                    CareerClass::Artisan,
                    "Shield Bearer",
                    CareerClass::Infantry,
                )
            } else if rank == 5 {
                spec_entry2("Herder", CareerClass::Trader, "Shield Bearer", CareerClass::Infantry)
            } else if rank == 6 {
                spec_entry2("Herder", CareerClass::Trader, "Thane", CareerClass::Knight)
            } else if rank == 7 {
                spec_entry2("Courtier", CareerClass::Official, "Thane", CareerClass::Knight)
            } else if rank == 8 {
                spec_entry1("Jarl", CareerClass::Noble)
            } else {
                CareerTableEntry::RemainAtRank(8)
            },
            Affiliation::Watch => if rank <= 1 {
                CareerTableEntry::ChangeAffiliation(Affiliation::Scholars)
            } else if rank <= 3 {
                spec_entry1("Inquisitor", CareerClass::Infantry)
            } else if rank == 4 {
                spec_entry2(
                    "Inquisition Seer",
                    CareerClass::Detective,
                    "Bluecoat",
                    CareerClass::Hunter,
                )
            } else if rank == 5 {
                spec_entry2(
                    "Inquisition Seer",
                    CareerClass::Detective,
                    "Bluecoat Seer",
                    CareerClass::Scholar,
                )
            } else if rank <= 7 {
                spec_entry2(
                    "Sceptre Scribe",
                    CareerClass::Official,
                    "Temple Guardian",
                    CareerClass::Knight,
                )
            } else {
                CareerTableEntry::RemainAtRank(7)
            },
            Affiliation::Scholars => if rank == 0 {
                CareerTableEntry::RerollWithDisadvantage
            } else if rank == 1 {
                spec_entry1("Mendicant", CareerClass::Beggar)
            } else if rank == 2 {
                spec_entry2("Mendicant", CareerClass::Beggar, "Apothecary", CareerClass::Physician)
            } else if rank == 3 {
                spec_entry2("Cleric", CareerClass::Zealot, "Apothecary", CareerClass::Physician)
            } else if rank <= 5 {
                spec_entry2("Cleric", CareerClass::Zealot, "Temple Seer", CareerClass::Scholar)
            } else if rank <= 7 {
                spec_entry1("Sceptre Scribe", CareerClass::Official)
            } else {
                CareerTableEntry::RemainAtRank(7)
            },
        },
    }
}

pub fn get_careers(location: &Location, affiliation: Affiliation, rank: i8) -> (r: CareerTableEntry)
    requires
        0 <= rank <= 9,
    ensures
        r == spec_get_careers(*location, affiliation, rank),
{
    match location.career_table {
        CareerTable::ValiantEmpire => match affiliation {
            Affiliation::Slumfolk => {
                if rank == 0 {
                    entry1("Outcast", CareerClass::Beggar)
                } else if rank <= 2 {
                    entry2("Militia", CareerClass::Guard, "Odd Jobber", CareerClass::Labourer)
                } else if rank == 3 {
                    entry2s(
                        "Peddler",
                        CareerClass::ConArtist,
                        "Dewisetic",
                        CareerClass::Zealot,
                        CareerTableStar::NeedsFaithAndCulture(Faith::Gytungrug, Culture::Kremish),
                    )
                } else {
                    CareerTableEntry::ChangeAffiliation(Affiliation::Plebeians)
                }
            },
            Affiliation::Criminals => {
                if rank == 0 {
                    entry1("Thief", CareerClass::Rogue)
                } else if rank == 1 {
                    entry2("Thief", CareerClass::Rogue, "Bodyguard", CareerClass::Guard)
                } else if rank == 2 {
                    entry2("Sawbones", CareerClass::Physician, "Smuggler", CareerClass::Mariner)
                } else if rank == 3 {
                    entry2(
                        "Counterfeiter",
                        CareerClass::ConArtist,
                        "Headhunter",
                        CareerClass::Detective,
                    )
                } else if rank == 4 {
                    entry2("Fence", CareerClass::Trader, "Gang Boss", CareerClass::Knight)
                } else if rank == 5 {
                    entry1("Gang Boss", CareerClass::Knight)
                } else {
                    CareerTableEntry::RemainAtRank(5)
                }
            },
            Affiliation::Vagabonds => {
                if rank <= 1 {
                    entry2("Deserter", CareerClass::Rogue, "Poacher", CareerClass::Hunter)
                } else if rank == 2 {
                    entry2("Smuggler", CareerClass::Mariner, "Highwayman", CareerClass::Wayfarer)
                } else if rank == 3 {
                    entry2("Sellsword", CareerClass::Infantry, "Highwayman", CareerClass::Wayfarer)
                } else if rank == 4 {
                    entry2("Sellsword", CareerClass::Infantry, "Sawbones", CareerClass::Physician)
                } else if rank <= 6 {
                    entry2("Field Captain", CareerClass::Knight, "Baneman", CareerClass::Detective)
                } else {
                    CareerTableEntry::RemainAtRank(6)
                }
            },
            Affiliation::Peasantry => {
                if rank <= 1 {
                    entry2("Woodsman", CareerClass::Hunter, "Serf", CareerClass::Labourer)
                } else if rank <= 3 {
                    entry2("Fisher", CareerClass::Mariner, "Mootman", CareerClass::Farmer)
                } else if rank <= 5 {
                    entry2("Herder", CareerClass::Trader, "Smallholder", CareerClass::Farmer)
                } else {
                    CareerTableEntry::RemainAtRank(5)
                }
            },
            Affiliation::Performers => {
                if rank <= 1 {
                    entry1("Penny Mummer", CareerClass::Beggar)
                } else if rank <= 3 {
                    entry1("Mummer", CareerClass::Entertainer)
                } else if rank == 4 {
                    entry2("Herald", CareerClass::Entertainer, "Proprietor", CareerClass::Trader)
                } else if rank == 5 {
                    entry1("Proprietor", CareerClass::Trader)
                } else {
                    CareerTableEntry::RemainAtRank(5)
                }
            },
            Affiliation::Plebeians => {
                if rank == 0 {
                    CareerTableEntry::RerollWithDisadvantage
                } else if rank == 1 {
                    entry1("Outcast", CareerClass::Beggar)
                } else if rank == 2 {
                    entry2("Peddler", CareerClass::ConArtist, "Odd Jobber", CareerClass::Labourer)
                } else if rank <= 4 {
                    entry2s(
                        "Courtesan",
                        CareerClass::Entertainer,
                        "Lodge Artisan",
                        CareerClass::Artisan,
                        CareerTableStar::NeedsFaith(Faith::Accorder),
                    )
                } else if rank <= 6 {
                    entry2("Proprietor", CareerClass::Trader, "Master Artisan", CareerClass::Artisan)
                } else {
                    CareerTableEntry::RemainAtRank(6)
                }
            },
            Affiliation::Watch => {
                if rank <= 1 {
                    CareerTableEntry::ChangeAffiliation(Affiliation::Scholars)
                } else if rank <= 3 {
                    entry1("Inquisitor", CareerClass::Infantry)
                } else if rank == 4 {
                    entry2(
                        "Inquisition Seer",
                        CareerClass::Detective,
                        "Bluecoat",
                        CareerClass::Hunter,
                    )
                } else if rank == 5 {
                    entry2(
                        "Inquisition Seer",
                        CareerClass::Detective,
                        "Bluecoat Seer",
                        CareerClass::Scholar,
                    )
                } else if rank <= 7 {
                    entry2(
                        "Sceptre Scribe",
                        CareerClass::Official,
                        "Temple Guardian",
                        CareerClass::Knight,
                    )
                } else {
                    CareerTableEntry::RemainAtRank(7)
                }
            },
            Affiliation::Army => {
                if rank <= 1 {
                    CareerTableEntry::ChangeAffiliation(Affiliation::Vagabonds)
                } else if rank == 2 {
                    entry2("Watch", CareerClass::Guard, "Auxiliary", CareerClass::Hunter)
                } else if rank == 3 {
                    entry2("Sailor", CareerClass::Mariner, "Legionnaire", CareerClass::Infantry)
                } else if rank == 4 {
                    entry2("Medicus", CareerClass::Physician, "Legionnaire", CareerClass::Infantry)
                } else if rank == 5 {
                    entry2("Medicus", CareerClass::Physician, "Courier", CareerClass::Wayfarer)
                } else if rank == 6 {
                    entry1("Field Captain", CareerClass::Knight)
                } else {
                    CareerTableEntry::RemainAtRank(6)
                }
            },
            Affiliation::Scholars => {
                if rank == 0 {
                    CareerTableEntry::RerollWithDisadvantage
                } else if rank == 1 {
                    entry1("Mendicant", CareerClass::Beggar)
                } else if rank == 2 {
                    entry2("Mendicant", CareerClass::Beggar, "Apothecary", CareerClass::Physician)
                } else if rank == 3 {
                    entry2("Cleric", CareerClass::Zealot, "Apothecary", CareerClass::Physician)
                } else if rank <= 5 {
                    entry2("Cleric", CareerClass::Zealot, "Temple Seer", CareerClass::Scholar)
                } else if rank <= 7 {
                    entry1("Sceptre Scribe", CareerClass::Official)
                } else {
                    CareerTableEntry::RemainAtRank(7)
                }
            },
            Affiliation::Gentry => {
                if rank <= 3 {
                    CareerTableEntry::Reroll
                } else if rank == 4 {
                    entry1("Prefect", CareerClass::Official)
                } else if rank == 5 {
                    entry2s(
                        "Prefect",
                        CareerClass::Official,
                        "Lodge Officiary",
                        CareerClass::Zealot,
                        CareerTableStar::NeedsFaith(Faith::Accorder),
                    )
                } else if rank == 6 {
                    entry2s(
                        "Courtier",
                        CareerClass::Official,
                        "Lodge Officiary",
                        CareerClass::Zealot,
                        CareerTableStar::NeedsFaith(Faith::Accorder),
                    )
                } else if rank <= 8 {
                    entry2("Grandee", CareerClass::Noble, "Centurion", CareerClass::Knight)
                } else {
                    entry1("Liege Lord", CareerClass::Noble)
                }
            },
        },
        CareerTable::Nivena => match affiliation {
            Affiliation::Slumfolk => {
                if rank == 0 {
                    entry1("Outcast", CareerClass::Beggar)
                } else if rank <= 2 {
                    entry2("Militia", CareerClass::Guard, "OddJobber", CareerClass::Labourer)
                } else if rank == 3 {
                    entry2s(
                        "Peddler",
                        CareerClass::ConArtist,
                        "Dewisetic",
                        CareerClass::Zealot,
                        CareerTableStar::NeedsFaithAndCulture(Faith::Gytungrug, Culture::Kremish),
                    )
                } else {
                    CareerTableEntry::ChangeAffiliation(Affiliation::Plebeians)
                }
            },
            Affiliation::Criminals => {
                if rank == 0 {
                    entry1("Thief", CareerClass::Rogue)
                } else if rank == 1 {
                    entry2("Thief", CareerClass::Rogue, "Bodyguard", CareerClass::Guard)
                } else if rank == 2 {
                    entry2("Sawbones", CareerClass::Physician, "Smuggler", CareerClass::Mariner)
                } else if rank == 3 {
                    entry2(
                        "Counterfeiter",
                        CareerClass::ConArtist,
                        "Headhunter",
                        CareerClass::Detective,
                    )
                } else if rank == 4 {
                    entry2("Fence", CareerClass::Trader, "Gang Boss", CareerClass::Knight)
                } else if rank == 5 {
                    entry1("Gang Boss", CareerClass::Knight)
                } else {
                    CareerTableEntry::RemainAtRank(6)
                }
            },
            Affiliation::Vagabonds => {
                if rank <= 1 {
                    entry2("Deserter", CareerClass::Rogue, "Woodsman", CareerClass::Hunter)
                } else if rank == 2 {
                    entry2("Smuggler", CareerClass::Mariner, "Highwayman", CareerClass::Wayfarer)
                } else if rank == 3 {
                    entry2("Sellsword", CareerClass::Infantry, "Highwayman", CareerClass::Wayfarer)
                } else if rank == 4 {
                    entry2("Sellsword", CareerClass::Infantry, "Sawbones", CareerClass::Physician)
                } else if rank <= 6 {
                    entry2("Field Captain", CareerClass::Knight, "Baneman", CareerClass::Detective)
                } else {
                    CareerTableEntry::RemainAtRank(6)
                }
            },
            Affiliation::Peasantry => {
                if rank <= 1 {
                    entry2("Woodsman", CareerClass::Hunter, "Serf", CareerClass::Labourer)
                } else if rank <= 3 {
                    entry2("Fisher", CareerClass::Mariner, "Mootman", CareerClass::Farmer)
                } else if rank <= 5 {
                    entry2("Herder", CareerClass::Trader, "Smallholder", CareerClass::Farmer)
                } else {
                    CareerTableEntry::RemainAtRank(6)
                }
            },
            Affiliation::Performers => {
                if rank == 0 {
                    entry1("Penny Mummer", CareerClass::Beggar)
                } else if rank == 1 {
                    entry2(
                        "Lodge Apprentice",
                        CareerClass::Labourer,
                        "Bodyguard",
                        CareerClass::Guard,
                    )
                } else if rank == 2 {
                    entry2("Mummer", CareerClass::Entertainer, "Bodyguard", CareerClass::Guard)
                } else if rank == 3 {
                    entry2("Mummer", CareerClass::Entertainer, "Lodge Merchant", CareerClass::Trader)
                } else if rank == 4 {
                    entry2("Herald", CareerClass::Entertainer, "Lodge Merchant", CareerClass::Trader)
                } else if rank == 5 {
                    entry1("Lodge Officiary", CareerClass::Zealot)
                } else {
                    CareerTableEntry::RemainAtRank(6)
                }
            },
            Affiliation::Plebeians => {
                if rank <= 1 {
                    CareerTableEntry::RerollWithDisadvantage
                } else if rank <= 3 {
                    entry2("Bodyguard", CareerClass::Guard, "Lodge Apprentice", CareerClass::Labourer)
                } else if rank == 4 {
                    entry2(
                        "Lodge Merchant",
                        CareerClass::Trader,
                        "Lodge Artisan",
                        CareerClass::Artisan,
                    )
                } else if rank == 5 {
                    entry2(
                        "Lodge Artisan",
                        CareerClass::Artisan,
                        "Lodge Officiary",
                        CareerClass::Zealot,
                    )
                } else if rank == 6 {
                    entry1("Lodge Officiary", CareerClass::Zealot)
                } else {
                    CareerTableEntry::RemainAtRank(6)
                }
            },
            Affiliation::Watch => {
                if rank <= 1 {
                    CareerTableEntry::ChangeAffiliation(Affiliation::Criminals)
                } else if rank == 2 {
                    entry1("Watch", CareerClass::Guard)
                } else if rank == 3 {
                    entry2("Watch", CareerClass::Guard, "Courier", CareerClass::Wayfarer)
                } else if rank == 4 {
                    entry2("Watch Sergeant", CareerClass::Detective, "Pale Agent", CareerClass::Rogue)
                } else if rank == 5 {
                    entry2("Courtier", CareerClass::Official, "Pale Agent", CareerClass::Rogue)
                } else if rank == 6 {
                    entry2(
                        "Courtier",
                        CareerClass::Official,
                        "Pale Sergeant",
                        CareerClass::ConArtist,
                    )
                } else {
                    CareerTableEntry::RemainAtRank(6)
                }
            },
            Affiliation::Army => {
                if rank <= 1 {
                    CareerTableEntry::ChangeAffiliation(Affiliation::Vagabonds)
                } else if rank == 2 {
                    entry2("Militia", CareerClass::Guard, "Spotter", CareerClass::Rogue)
                } else if rank <= 4 {
                    entry2("Legionary", CareerClass::Infantry, "Archer", CareerClass::Wayfarer)
                } else if rank == 5 {
                    entry2("Landed Veteran", CareerClass::Farmer, "Prefect", CareerClass::Official)
                } else if rank == 6 {
                    entry2("Centurion", CareerClass::Knight, "Prefect", CareerClass::Official)
                } else if rank == 7 {
                    entry2("Centurion", CareerClass::Knight, "Senator", CareerClass::Noble)
                } else {
                    CareerTableEntry::RemainAtRank(7)
                }
            },
            Affiliation::Scholars => {
                if rank <= 2 {
                    CareerTableEntry::Reroll
                } else if rank == 3 {
                    entry1("Medicus", CareerClass::Physician)
                } else if rank == 4 {
                    entry2("Medicus", CareerClass::Physician, "Lodge Scribe", CareerClass::Official)
                } else if rank == 5 {
                    entry2(
                        "Lodge Scribe",
                        CareerClass::Official,
                        "Lodge Scholar",
                        CareerClass::Scholar,
                    )
                } else if rank == 6 {
                    entry2(
                        "Lodge Officiary",
                        CareerClass::Zealot,
                        "Lodge Scholar",
                        CareerClass::Scholar,
                    )
                } else if rank == 7 {
                    entry1("Lodge Officiary", CareerClass::Zealot)
                } else {
                    CareerTableEntry::RemainAtRank(7)
                }
            },
            Affiliation::Gentry => {
                if rank <= 1 {
                    CareerTableEntry::RerollWithDisadvantage
                } else if rank == 2 {
                    entry1("Bodyguard", CareerClass::Guard)
                } else if rank == 3 {
                    entry2("Bodyguard", CareerClass::Guard, "SaIlor", CareerClass::Mariner)
                } else if rank == 4 {
                    entry2("Caravan Guard", CareerClass::Wayfarer, "Sailor", CareerClass::Mariner)
                } else if rank == 5 {
                    entry2(
                        "Caravan Guard",
                        CareerClass::Wayfarer,
                        "Lodge Merchant",
                        CareerClass::Trader,
                    )
                } else if rank == 6 {
                    entry1("Lodge Merchant", CareerClass::Trader)
                } else if rank == 7 {
                    entry2(
                        "Lodge Merchant",
                        CareerClass::Trader,
                        "Lodge Officiary",
                        CareerClass::Zealot,
                    )
                } else if rank == 8 {
                    entry1("Lodge Officiary", CareerClass::Zealot)
                } else {
                    CareerTableEntry::RemainAtRank(8)
                }
            },
        },
        CareerTable::Marolaw => match affiliation {
            Affiliation::Slumfolk => {
                if rank == 0 {
                    entry2("Üslings", CareerClass::Beggar, "Clan Thrall", CareerClass::Labourer)
                } else if rank == 1 {
                    entry2(
                        "Galley Thrall",
                        CareerClass::Mariner,
                        "Clan Thrall",
                        CareerClass::Labourer,
                    )
                } else if rank == 2 {
                    entry2("Galley Thrall", CareerClass::Mariner, "Peddler", CareerClass::ConArtist)
                } else if rank == 3 {
                    entry2(
                        "March Thrall",
                        CareerClass::Farmer,
                        "Courtesan",
                        CareerClass::Entertainer,
                    )
                } else {
                    CareerTableEntry::ChangeAffiliation(Affiliation::Criminals)
                }
            },
            Affiliation::Criminals => {
                if rank == 0 {
                    entry1("Thief", CareerClass::Rogue)
                } else if rank == 1 {
                    entry2("Thief", CareerClass::Rogue, "Bodyguard", CareerClass::Guard)
                } else if rank == 2 {
                    entry2("Sawbones", CareerClass::Physician, "Smuggler", CareerClass::Mariner)
                } else if rank == 3 {
                    entry2(
                        "Counterfeiter",
                        CareerClass::ConArtist,
                        "Headhunter",
                        CareerClass::Detective,
                    )
                } else if rank == 4 {
                    entry2("Fence", CareerClass::Trader, "Gang Boss", CareerClass::Knight)
                } else if rank == 5 {
                    entry1("Gang Boss", CareerClass::Knight)
                } else {
                    CareerTableEntry::RemainAtRank(5)
                }
            },
            Affiliation::Vagabonds => {
                if rank <= 1 {
                    entry2("Deserter", CareerClass::Rogue, "Poacher", CareerClass::Hunter)
                } else if rank == 2 {
                    entry2("Smuggler", CareerClass::Mariner, "Highwayman", CareerClass::Wayfarer)
                } else if rank == 3 {
                    entry2("Sellsword", CareerClass::Infantry, "Highwayman", CareerClass::Wayfarer)
                } else if rank == 4 {
                    entry2("Sellsword", CareerClass::Infantry, "Sawbones", CareerClass::Physician)
                } else if rank <= 6 {
                    entry2("Field Captain", CareerClass::Knight, "Baneman", CareerClass::Detective)
                } else {
                    CareerTableEntry::ChangeAffiliation(Affiliation::Gentry)
                }
            },
            Affiliation::Peasantry => {
                if rank <= 1 {
                    entry2("Woodsman", CareerClass::Hunter, "Serf", CareerClass::Labourer)
                } else if rank <= 3 {
                    entry2("Fisher", CareerClass::Mariner, "Mootman", CareerClass::Farmer)
                } else if rank <= 5 {
                    entry2("Herder", CareerClass::Trader, "Smallholder", CareerClass::Farmer)
                } else {
                    CareerTableEntry::ChangeAffiliation(Affiliation::Gentry)
                }
            },
            Affiliation::Performers => {
                if rank == 0 {
                    entry1("Üstaler", CareerClass::ConArtist)
                } else if rank == 1 {
                    entry2("Üstaler", CareerClass::ConArtist, "Skald", CareerClass::Entertainer)
                } else if rank == 2 {
                    entry2("Lundstaler", CareerClass::ConArtist, "Skald", CareerClass::Entertainer)
                } else if rank == 3 {
                    entry2("Lundstaler", CareerClass::Physician, "Runescribe", CareerClass::Artisan)
                } else if rank == 4 {
                    entry2("Speaker", CareerClass::Zealot, "Runescribe", CareerClass::Artisan)
                } else if rank == 5 {
                    entry2("Speaker", CareerClass::Zealot, "Chronicler", CareerClass::Scholar)
                } else {
                    CareerTableEntry::RemainAtRank(5)
                }
            },
            Affiliation::Plebeians | Affiliation::Army | Affiliation::Gentry => {
                if rank <= 1 {
                    CareerTableEntry::ChangeAffiliation(Affiliation::Vagabonds)
                } else if rank == 2 {
                    entry2("Drabling", CareerClass::Guard, "Sailor", CareerClass::Mariner)
                } else if rank == 3 {
                    entry2("Clan Crafter", CareerClass::Artisan, "Sailor", CareerClass::Mariner)
                } else if rank == 4 {
                    entry2(
                        "Clan Crafter",
                        CareerClass::Artisan,
                        "Shield Bearer",
                        CareerClass::Infantry,
                    )
                } else if rank == 5 {
                    entry2("Herder", CareerClass::Trader, "Shield Bearer", CareerClass::Infantry)
                } else if rank == 6 {
                    entry2("Herder", CareerClass::Trader, "Thane", CareerClass::Knight)
                } else if rank == 7 {
                    entry2("Courtier", CareerClass::Official, "Thane", CareerClass::Knight)
                } else if rank == 8 {
                    entry1("Jarl", CareerClass::Noble)
                } else {
                    CareerTableEntry::RemainAtRank(8)
                }
            },
            Affiliation::Watch => {
                if rank <= 1 {
                    CareerTableEntry::ChangeAffiliation(Affiliation::Scholars)
                } else if rank <= 3 {
                    entry1("Inquisitor", CareerClass::Infantry)
                } else if rank == 4 {
                    entry2(
                        "Inquisition Seer",
                        CareerClass::Detective,
                        "Bluecoat",
                        CareerClass::Hunter,
                    )
                } else if rank == 5 {
                    entry2(
                        "Inquisition Seer",
                        CareerClass::Detective,
                        "Bluecoat Seer",
                        CareerClass::Scholar,
                    )
                } else if rank <= 7 {
                    entry2(
                        "Sceptre Scribe",
                        CareerClass::Official,
                        "Temple Guardian",
                        CareerClass::Knight,
                    )
                } else {
                    CareerTableEntry::RemainAtRank(7)
                }
            },
            Affiliation::Scholars => {
                if rank == 0 {
                    CareerTableEntry::RerollWithDisadvantage
                } else if rank == 1 {
                    entry1("Mendicant", CareerClass::Beggar)
                } else if rank == 2 {
                    entry2("Mendicant", CareerClass::Beggar, "Apothecary", CareerClass::Physician)
                } else if rank == 3 {
                    entry2("Cleric", CareerClass::Zealot, "Apothecary", CareerClass::Physician)
                } else if rank <= 5 {
                    entry2("Cleric", CareerClass::Zealot, "Temple Seer", CareerClass::Scholar)
                } else if rank <= 7 {
                    entry1("Sceptre Scribe", CareerClass::Official)
                } else {
                    CareerTableEntry::RemainAtRank(7)
                }
            },
        },
    }
}

/// A percentile roll laid against the nine descending band floors of an
/// affiliation column: the roll falls into the first band whose floor it
/// reaches, and below every floor lies the gentry.
pub open spec fn spec_affiliation_bands(
    d100: i8,
    t: (i8, i8, i8, i8, i8, i8, i8, i8, i8),
) -> Affiliation {
    if d100 >= t.0 {
        Affiliation::Slumfolk
    } else if d100 >= t.1 {
        Affiliation::Criminals
    } else if d100 >= t.2 {
        Affiliation::Vagabonds
    } else if d100 >= t.3 {
        Affiliation::Peasantry
    } else if d100 >= t.4 {
        Affiliation::Performers
    } else if d100 >= t.5 {
        Affiliation::Plebeians
    } else if d100 >= t.6 {
        Affiliation::Watch
    } else if d100 >= t.7 {
        Affiliation::Army
    } else if d100 >= t.8 {
        Affiliation::Scholars
    } else {
        Affiliation::Gentry
    }
}

fn affiliation_bands(d100: i8, t: (i8, i8, i8, i8, i8, i8, i8, i8, i8)) -> (r: Affiliation)
    ensures
        r == spec_affiliation_bands(d100, t),
{
    if d100 >= t.0 {
        Affiliation::Slumfolk
    } else if d100 >= t.1 {
        Affiliation::Criminals
    } else if d100 >= t.2 {
        Affiliation::Vagabonds
    } else if d100 >= t.3 {
        Affiliation::Peasantry
    } else if d100 >= t.4 {
        Affiliation::Performers
    } else if d100 >= t.5 {
        Affiliation::Plebeians
    } else if d100 >= t.6 {
        Affiliation::Watch
    } else if d100 >= t.7 {
        Affiliation::Army
    } else if d100 >= t.8 {
        Affiliation::Scholars
    } else {
        Affiliation::Gentry
    }
}

/// The nine band floors of a location's affiliation column.
pub open spec fn spec_affiliation_thresholds(loc: Location) -> (i8, i8, i8, i8, i8, i8, i8, i8, i8) {
    match loc.career_table {
        CareerTable::ValiantEmpire => match loc.demographic {
            Demographic::Urban => (91, 76, 71, 61, 51, 31, 27, 17, 11),
            Demographic::Rural => (91, 86, 76, 46, 41, 31, 27, 17, 11),
            Demographic::Border => (86, 81, 61, 51, 46, 36, 31, 16, 6),
        },
        CareerTable::Nivena => match loc.demographic {
            Demographic::Urban => (93, 84, 81, 76, 66, 46, 31, 21, 11),
            Demographic::Rural => (93, 86, 76, 61, 51, 36, 31, 11, 6),
            Demographic::Border => (91, 81, 56, 46, 36, 31, 26, 11, 4),
        },
        CareerTable::Marolaw => match loc.demographic {
            Demographic::Urban => (81, 71, 66, 61, 51, 36, 31, 21, 11),
            Demographic::Rural => (81, 76, 71, 61, 46, 36, 26, 11, 6),
            Demographic::Border => (86, 81, 61, 56, 46, 39, 30, 13, 4),
        },
    }
}

/// The affiliation a percentile roll lands on at a location.
pub open spec fn spec_get_affiliation(loc: Location, d100: i8) -> Affiliation {
    spec_affiliation_bands(d100, spec_affiliation_thresholds(loc))
}

pub fn get_affiliation(location: &Location, d100: i8) -> (r: Affiliation)
    requires
        1 <= d100 <= 100,
    ensures
        r == spec_get_affiliation(*location, d100),
{
    let t = match location.career_table {
        CareerTable::ValiantEmpire => match location.demographic {
            Demographic::Urban => (91, 76, 71, 61, 51, 31, 27, 17, 11),
            Demographic::Rural => (91, 86, 76, 46, 41, 31, 27, 17, 11),
            Demographic::Border => (86, 81, 61, 51, 46, 36, 31, 16, 6),
        },
        CareerTable::Nivena => match location.demographic {
            Demographic::Urban => (93, 84, 81, 76, 66, 46, 31, 21, 11),
            Demographic::Rural => (93, 86, 76, 61, 51, 36, 31, 11, 6),
            Demographic::Border => (91, 81, 56, 46, 36, 31, 26, 11, 4),
        },
        CareerTable::Marolaw => match location.demographic {
            Demographic::Urban => (81, 71, 66, 61, 51, 36, 31, 21, 11),
            Demographic::Rural => (81, 76, 71, 61, 46, 36, 26, 11, 6),
            Demographic::Border => (86, 81, 61, 56, 46, 39, 30, 13, 4),
        },
    };
    affiliation_bands(d100, t)
}

/// The rank a six-sided die gives under an affiliation at a location; every
/// column lands within zero to nine.
pub open spec fn spec_get_rank(loc: Location, affiliation: Affiliation, d6: i8) -> int {
    let d3 = (d6 + 1) / 2;
    match loc.career_table {
        CareerTable::ValiantEmpire => match affiliation {
            Affiliation::Slumfolk => d3 as int,
            Affiliation::Criminals => d3 as int,
            Affiliation::Vagabonds => d3 + 1,
            Affiliation::Peasantry => d3 + 1,
            Affiliation::Performers => d3 + 1,
            Affiliation::Plebeians => d6 as int,
            Affiliation::Watch => d3 + 2,
            Affiliation::Army => d3 + 2,
            Affiliation::Scholars => d6 + 1,
            Affiliation::Gentry => d3 + 3,
        },
        CareerTable::Nivena => match affiliation {
            Affiliation::Slumfolk => d3 as int,
            Affiliation::Criminals => d3 as int,
            Affiliation::Vagabonds => d3 + 1,
            Affiliation::Peasantry => d3 + 1,
            Affiliation::Performers => d3 + 1,
            Affiliation::Plebeians => d3 + 2,
            Affiliation::Watch => d3 + 2,
            Affiliation::Army => d6 + 1,
            Affiliation::Scholars => d3 + 3,
            Affiliation::Gentry => d6 + 2,
        },
        CareerTable::Marolaw => match affiliation {
            Affiliation::Slumfolk => d3 - 1,
            Affiliation::Criminals => d3 as int,
            Affiliation::Vagabonds => d3 as int,
            Affiliation::Peasantry => d3 + 1,
            Affiliation::Performers => d3 + 1,
            Affiliation::Plebeians => d3 + 2,
            Affiliation::Watch => d3 + 2,
            Affiliation::Army => d3 + 3,
            Affiliation::Scholars => d3 + 3,
            Affiliation::Gentry => d3 + 5,
        },
    }
}

pub fn get_rank(location: &Location, affiliation: Affiliation, d6: i8) -> (r: i8)
    requires
        1 <= d6 <= 6,
    ensures
        r as int == spec_get_rank(*location, affiliation, d6),
        0 <= r <= 9,
{
    let d3 = (d6 + 1) / 2;
    match location.career_table {
        CareerTable::ValiantEmpire => match affiliation {
            Affiliation::Slumfolk => d3,
            Affiliation::Criminals => d3,
            Affiliation::Vagabonds => d3 + 1,
            Affiliation::Peasantry => d3 + 1,
            Affiliation::Performers => d3 + 1,
            Affiliation::Plebeians => d6,
            Affiliation::Watch => d3 + 2,
            Affiliation::Army => d3 + 2,
            Affiliation::Scholars => d6 + 1,
            Affiliation::Gentry => d3 + 3,
        },
        CareerTable::Nivena => match affiliation {
            Affiliation::Slumfolk => d3,
            Affiliation::Criminals => d3,
            Affiliation::Vagabonds => d3 + 1,
            Affiliation::Peasantry => d3 + 1,
            Affiliation::Performers => d3 + 1,
            Affiliation::Plebeians => d3 + 2,
            Affiliation::Watch => d3 + 2,
            Affiliation::Army => d6 + 1,
            Affiliation::Scholars => d3 + 3,
            Affiliation::Gentry => d6 + 2,
        },
        CareerTable::Marolaw => match affiliation {
            Affiliation::Slumfolk => d3 - 1,
            Affiliation::Criminals => d3,
            Affiliation::Vagabonds => d3,
            Affiliation::Peasantry => d3 + 1,
            Affiliation::Performers => d3 + 1,
            Affiliation::Plebeians => d3 + 2,
            Affiliation::Watch => d3 + 2,
            Affiliation::Army => d3 + 3,
            Affiliation::Scholars => d3 + 3,
            Affiliation::Gentry => d3 + 5,
        },
    }
}

/// One of the three perk options a career class offers: a fixed perk, a
/// family of perks to pick from, or one of two mutually exclusive perks.
#[derive(Copy, Clone, Debug)]
pub enum CareerClassPerkOption {
    Perk(Perk),
    AnyFightingStyle,
    AnyArmsFightingStyle,
    AnyHandsFightingStyle,
    AnyLore,
    AnyCraft,
    MutuallyExclusive(Perk, Perk),
}

/// The three perk options each career class offers.
pub open spec fn spec_class_perks(c: CareerClass) -> (
    CareerClassPerkOption,
    CareerClassPerkOption,
    CareerClassPerkOption,
) {
    match c {
        CareerClass::Artisan => (
            CareerClassPerkOption::Perk(Perk::BulkBuyer),
            CareerClassPerkOption::AnyCraft,
            CareerClassPerkOption::Perk(Perk::Numeracy),
        ),
        CareerClass::Beggar => (
            CareerClassPerkOption::Perk(Perk::HeavySleeper),
            CareerClassPerkOption::Perk(Perk::Instrumentalist),
            CareerClassPerkOption::Perk(Perk::SturdyStuff),
        ),
        CareerClass::ConArtist => (
            CareerClassPerkOption::Perk(Perk::ColdRead),
            CareerClassPerkOption::Perk(Perk::Disassembler),
            CareerClassPerkOption::Perk(Perk::Finesse),
        ),
        CareerClass::Detective => (
            CareerClassPerkOption::MutuallyExclusive(Perk::ColdRead, Perk::Torturer),
            CareerClassPerkOption::Perk(Perk::Locksmith),
            CareerClassPerkOption::AnyLore,
        ),
        CareerClass::Entertainer => (
            CareerClassPerkOption::Perk(Perk::Dancer),
            CareerClassPerkOption::Perk(Perk::Instrumentalist),
            CareerClassPerkOption::Perk(Perk::Trainer),
        ),
        CareerClass::Farmer => (
            CareerClassPerkOption::AnyCraft,
            CareerClassPerkOption::Perk(Perk::Lore("Nature")),
            CareerClassPerkOption::Perk(Perk::Trainer),
        ),
        CareerClass::Guard => (
            CareerClassPerkOption::Perk(Perk::Grappler),
            CareerClassPerkOption::Perk(Perk::Sentinel),
            CareerClassPerkOption::AnyFightingStyle,
        ),
        CareerClass::Hunter => (
            CareerClassPerkOption::Perk(Perk::LightFooted),
            CareerClassPerkOption::Perk(Perk::Trainer),
            CareerClassPerkOption::AnyArmsFightingStyle,
        ),
        CareerClass::Infantry => (
            CareerClassPerkOption::Perk(Perk::ArmourTraining),
            CareerClassPerkOption::AnyHandsFightingStyle,
            CareerClassPerkOption::Perk(Perk::StoneHearted),
        ),
        CareerClass::Knight => (
            CareerClassPerkOption::Perk(Perk::ArmourTraining),
            CareerClassPerkOption::AnyFightingStyle,
            CareerClassPerkOption::Perk(Perk::Horseriding),
        ),
        CareerClass::Labourer => (
            CareerClassPerkOption::Perk(Perk::Knockout),
            CareerClassPerkOption::Perk(Perk::Craft("Carpentry")),
            CareerClassPerkOption::Perk(Perk::StrongBack),
        ),
        CareerClass::Mariner => (
            CareerClassPerkOption::Perk(Perk::Marine),
            CareerClassPerkOption::Perk(Perk::Swimmer),
            CareerClassPerkOption::AnyArmsFightingStyle,
        ),
        CareerClass::Noble => (
            CareerClassPerkOption::Perk(Perk::Bossy),
            CareerClassPerkOption::Perk(Perk::Horseriding),
            CareerClassPerkOption::Perk(Perk::Numeracy),
        ),
        CareerClass::Official => (
            CareerClassPerkOption::Perk(Perk::Dancer),
            CareerClassPerkOption::Perk(Perk::Indulgent),
            CareerClassPerkOption::Perk(Perk::Literacy),
        ),
        CareerClass::Physician => (
            CareerClassPerkOption::Perk(Perk::Craft("Surgery")),
            CareerClassPerkOption::Perk(Perk::Literacy),
            CareerClassPerkOption::Perk(Perk::Lore("Medicine")),
        ),
        CareerClass::Rogue => (
            CareerClassPerkOption::Perk(Perk::Finesse),
            CareerClassPerkOption::Perk(Perk::LightFooted),
            CareerClassPerkOption::AnyHandsFightingStyle,
        ),
        CareerClass::Scholar => (
            CareerClassPerkOption::Perk(Perk::Literacy),
            CareerClassPerkOption::AnyLore,
            CareerClassPerkOption::Perk(Perk::Numeracy),
        ),
        CareerClass::Trader => (
            CareerClassPerkOption::Perk(Perk::BulkBuyer),
            CareerClassPerkOption::MutuallyExclusive(Perk::Horseriding, Perk::Marine),
            CareerClassPerkOption::Perk(Perk::Numeracy),
        ),
        CareerClass::Wayfarer => (
            CareerClassPerkOption::Perk(Perk::Horseriding),
            CareerClassPerkOption::Perk(Perk::NightEyes),
            CareerClassPerkOption::Perk(Perk::Pathfinder),
        ),
        CareerClass::Zealot => (
            CareerClassPerkOption::Perk(Perk::Literacy),
            CareerClassPerkOption::Perk(Perk::Lore("Religion")),
            CareerClassPerkOption::Perk(Perk::Ritualist),
        ),
    }
}

impl CareerClass {
    /// The three perk options this class offers.
    pub fn perks(&self) -> (r: (
        CareerClassPerkOption,
        CareerClassPerkOption,
        CareerClassPerkOption,
    ))
        ensures
            r == spec_class_perks(*self),
    {
        match self {
            CareerClass::Artisan => (
                CareerClassPerkOption::Perk(Perk::BulkBuyer),
                CareerClassPerkOption::AnyCraft,
                CareerClassPerkOption::Perk(Perk::Numeracy),
            ),
            CareerClass::Beggar => (
                CareerClassPerkOption::Perk(Perk::HeavySleeper),
                CareerClassPerkOption::Perk(Perk::Instrumentalist),
                CareerClassPerkOption::Perk(Perk::SturdyStuff),
            ),
            CareerClass::ConArtist => (
                CareerClassPerkOption::Perk(Perk::ColdRead),
                CareerClassPerkOption::Perk(Perk::Disassembler),
                CareerClassPerkOption::Perk(Perk::Finesse),
            ),
            CareerClass::Detective => (
                CareerClassPerkOption::MutuallyExclusive(Perk::ColdRead, Perk::Torturer),
                CareerClassPerkOption::Perk(Perk::Locksmith),
                CareerClassPerkOption::AnyLore,
            ),
            CareerClass::Entertainer => (
                CareerClassPerkOption::Perk(Perk::Dancer),
                CareerClassPerkOption::Perk(Perk::Instrumentalist),
                CareerClassPerkOption::Perk(Perk::Trainer),
            ),
            CareerClass::Farmer => (
                CareerClassPerkOption::AnyCraft,
                CareerClassPerkOption::Perk(Perk::Lore("Nature")),
                CareerClassPerkOption::Perk(Perk::Trainer),
            ),
            CareerClass::Guard => (
                CareerClassPerkOption::Perk(Perk::Grappler),
                CareerClassPerkOption::Perk(Perk::Sentinel),
                CareerClassPerkOption::AnyFightingStyle,
            ),
            CareerClass::Hunter => (
                CareerClassPerkOption::Perk(Perk::LightFooted),
                CareerClassPerkOption::Perk(Perk::Trainer),
                CareerClassPerkOption::AnyArmsFightingStyle,
            ),
            CareerClass::Infantry => (
                CareerClassPerkOption::Perk(Perk::ArmourTraining),
                CareerClassPerkOption::AnyHandsFightingStyle,
                CareerClassPerkOption::Perk(Perk::StoneHearted),
            ),
            CareerClass::Knight => (
                CareerClassPerkOption::Perk(Perk::ArmourTraining),
                CareerClassPerkOption::AnyFightingStyle,
                CareerClassPerkOption::Perk(Perk::Horseriding),
            ),
            CareerClass::Labourer => (
                CareerClassPerkOption::Perk(Perk::Knockout),
                CareerClassPerkOption::Perk(Perk::Craft("Carpentry")),
                CareerClassPerkOption::Perk(Perk::StrongBack),
            ),
            CareerClass::Mariner => (
                CareerClassPerkOption::Perk(Perk::Marine),
                CareerClassPerkOption::Perk(Perk::Swimmer),
                CareerClassPerkOption::AnyArmsFightingStyle,
            ),
            CareerClass::Noble => (
                CareerClassPerkOption::Perk(Perk::Bossy),
                CareerClassPerkOption::Perk(Perk::Horseriding),
                CareerClassPerkOption::Perk(Perk::Numeracy),
            ),
            CareerClass::Official => (
                CareerClassPerkOption::Perk(Perk::Dancer),
                CareerClassPerkOption::Perk(Perk::Indulgent),
                CareerClassPerkOption::Perk(Perk::Literacy),
            ),
            CareerClass::Physician => (
                CareerClassPerkOption::Perk(Perk::Craft("Surgery")),
                CareerClassPerkOption::Perk(Perk::Literacy),
                CareerClassPerkOption::Perk(Perk::Lore("Medicine")),
            ),
            CareerClass::Rogue => (
                CareerClassPerkOption::Perk(Perk::Finesse),
                CareerClassPerkOption::Perk(Perk::LightFooted),
                CareerClassPerkOption::AnyHandsFightingStyle,
            ),
            CareerClass::Scholar => (
                CareerClassPerkOption::Perk(Perk::Literacy),
                CareerClassPerkOption::AnyLore,
                CareerClassPerkOption::Perk(Perk::Numeracy),
            ),
            CareerClass::Trader => (
                CareerClassPerkOption::Perk(Perk::BulkBuyer),
                CareerClassPerkOption::MutuallyExclusive(Perk::Horseriding, Perk::Marine),
                CareerClassPerkOption::Perk(Perk::Numeracy),
            ),
            CareerClass::Wayfarer => (
                CareerClassPerkOption::Perk(Perk::Horseriding),
                CareerClassPerkOption::Perk(Perk::NightEyes),
                CareerClassPerkOption::Perk(Perk::Pathfinder),
            ),
            CareerClass::Zealot => (
                CareerClassPerkOption::Perk(Perk::Literacy),
                CareerClassPerkOption::Perk(Perk::Lore("Religion")),
                CareerClassPerkOption::Perk(Perk::Ritualist),
            ),
        }
    }
}

impl Affiliation {
    /// The faith gate an affiliation carries at a location; affiliations
    /// never carry a culture gate.
    pub open spec fn spec_star(self, loc: Location) -> CareerTableStar {
        match loc.career_table {
            CareerTable::ValiantEmpire => match self {
                Affiliation::Watch | Affiliation::Scholars => CareerTableStar::NeedsFaith(
                    Faith::Accorder,
                ),
                _ => CareerTableStar::Open,
            },
            CareerTable::Nivena => match self {
                Affiliation::Performers | Affiliation::Plebeians | Affiliation::Scholars
                    | Affiliation::Gentry => CareerTableStar::NeedsFaith(Faith::IdealLodges),
                _ => CareerTableStar::Open,
            },
            CareerTable::Marolaw => match self {
                Affiliation::Performers => CareerTableStar::NeedsFaith(Faith::OrodTast),
                Affiliation::Watch | Affiliation::Scholars => CareerTableStar::NeedsFaith(
                    Faith::Accorder,
                ),
                _ => CareerTableStar::Open,
            },
        }
    }

    pub fn star(&self, location: &Location) -> (r: CareerTableStar)
        ensures
            r == self.spec_star(*location),
            !(r is NeedsFaithAndCulture),
    {
        match location.career_table {
            CareerTable::ValiantEmpire => match self {
                Affiliation::Watch | Affiliation::Scholars => CareerTableStar::NeedsFaith(
                    Faith::Accorder,
                ),
                _ => CareerTableStar::Open,
            },
            CareerTable::Nivena => match self {
                Affiliation::Performers | Affiliation::Plebeians | Affiliation::Scholars
                    | Affiliation::Gentry => CareerTableStar::NeedsFaith(Faith::IdealLodges),
                _ => CareerTableStar::Open,
            },
            CareerTable::Marolaw => match self {
                Affiliation::Performers => CareerTableStar::NeedsFaith(Faith::OrodTast),
                Affiliation::Watch | Affiliation::Scholars => CareerTableStar::NeedsFaith(
                    Faith::Accorder,
                ),
                _ => CareerTableStar::Open,
            },
        }
    }
}

} // verus!
