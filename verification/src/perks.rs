//! The perk catalog and the per-stat perk tables. Perks are static rule
//! data consumed read-only during generation; the tables only record what
//! was gained and where it came from.

use crate::careers::CareerClass;
use crate::character::Stat;
use crate::text::str_eq;
use vstd::prelude::*;

verus! {

#[derive(Copy, Clone, Debug, PartialEq, Eq, Structural)]
pub enum RangedFightingStyle {
    CouchedLances,
    CutthroatScoundrel,
    HitAndRun,
    LaicSkirmishing,
    NivishLongbows,
    RedWallsOfTekitara,
    TorienneHail,
    VitalPoints,
}

#[derive(Copy, Clone, Debug, PartialEq, Eq, Structural)]
pub enum FightingStyle {
    ArdakAlleyfighting,
    ChargeLeader,
    FrayFighter,
    HumanShield,
    KnightBreaker,
    LebrissanCitizenSelfDefence,
    NobleDuelling,
    PhalanxFighter,
    PoorFingInfantry,
    SeaLegs,
    ThreeBladesOfSura,
}

#[derive(Copy, Clone, Debug)]
pub enum Perk {
    Addict,
    OldWound,
    ArmourTraining,
    Swimmer,
    Knockout,
    Mountaineer,
    FightingStyle(FightingStyle),
    Grappler,
    Riposte,
    Sentinel,
    Adrenaline,
    Feint,
    Momentum,
    PerfectParry,
    BulkBuyer,
    Manager,
    Passionate,
    Ritualist,
    Bossy,
    ColdRead,
    Indulgent,
    Retainer,
    Torturer,
    StoneHearted,
    SturdyStuff,
    Bard,
    BraveFace,
    Impeccable,
    PerfectMask,
    PiercingGaze,
    Tactician,
    Horseriding,
    Marine,
    Instrumentalist,
    Craft(&'static str),
    Ambidextrous,
    Disassembler,
    Finesse,
    RangedFightingStyle(RangedFightingStyle),
    Trainer,
    Captain,
    Locksmith,
    MountMastery,
    Quickdraw,
    StrongBack,
    MagicalAwakening,
    Dancer,
    Athletic,
    Diver,
    Irongut,
    Kicker,
    Vitality,
    Evasive,
    HeavySleeper,
    LightFooted,
    Reckless,
    DanceOfDeath,
    Tireless,
    NightEyes,
    Wargamer,
    Gamer,
    Lore(&'static str),
    Numeracy,
    Retraining,
    Alchemist,
    Chef,
    Pathfinder,
    Literacy,
    QuickStudy,
    Reactionary,
}

/// Two perks are the same perk when they are the same variant, and a named
/// craft or lore matches by its name.
pub open spec fn spec_perk_eq(a: Perk, b: Perk) -> bool {
    match (a, b) {
        (Perk::Craft(x), Perk::Craft(y)) => x@ == y@,
        (Perk::Lore(x), Perk::Lore(y)) => x@ == y@,
        (Perk::FightingStyle(x), Perk::FightingStyle(y)) => x == y,
        (Perk::RangedFightingStyle(x), Perk::RangedFightingStyle(y)) => x == y,
        (Perk::Addict, Perk::Addict) => true,
        (Perk::OldWound, Perk::OldWound) => true,
        (Perk::ArmourTraining, Perk::ArmourTraining) => true,
        (Perk::Swimmer, Perk::Swimmer) => true,
        (Perk::Knockout, Perk::Knockout) => true,
        (Perk::Mountaineer, Perk::Mountaineer) => true,
        (Perk::Grappler, Perk::Grappler) => true,
        (Perk::Riposte, Perk::Riposte) => true,
        (Perk::Sentinel, Perk::Sentinel) => true,
        (Perk::Adrenaline, Perk::Adrenaline) => true,
        (Perk::Feint, Perk::Feint) => true,
        (Perk::Momentum, Perk::Momentum) => true,
        (Perk::PerfectParry, Perk::PerfectParry) => true,
        (Perk::BulkBuyer, Perk::BulkBuyer) => true,
        (Perk::Manager, Perk::Manager) => true,
        (Perk::Passionate, Perk::Passionate) => true,
        (Perk::Ritualist, Perk::Ritualist) => true,
        (Perk::Bossy, Perk::Bossy) => true,
        (Perk::ColdRead, Perk::ColdRead) => true,
        (Perk::Indulgent, Perk::Indulgent) => true,
        (Perk::Retainer, Perk::Retainer) => true,
        (Perk::Torturer, Perk::Torturer) => true,
        (Perk::StoneHearted, Perk::StoneHearted) => true,
        (Perk::SturdyStuff, Perk::SturdyStuff) => true,
        (Perk::Bard, Perk::Bard) => true,
        (Perk::BraveFace, Perk::BraveFace) => true,
        (Perk::Impeccable, Perk::Impeccable) => true,
        (Perk::PerfectMask, Perk::PerfectMask) => true,
        (Perk::PiercingGaze, Perk::PiercingGaze) => true,
        (Perk::Tactician, Perk::Tactician) => true,
        (Perk::Horseriding, Perk::Horseriding) => true,
        (Perk::Marine, Perk::Marine) => true,
        (Perk::Instrumentalist, Perk::Instrumentalist) => true,
        (Perk::Ambidextrous, Perk::Ambidextrous) => true,
        (Perk::Disassembler, Perk::Disassembler) => true,
        (Perk::Finesse, Perk::Finesse) => true,
        (Perk::Trainer, Perk::Trainer) => true,
        (Perk::Captain, Perk::Captain) => true,
        (Perk::Locksmith, Perk::Locksmith) => true,
        (Perk::MountMastery, Perk::MountMastery) => true,
        (Perk::Quickdraw, Perk::Quickdraw) => true,
        (Perk::StrongBack, Perk::StrongBack) => true,
        (Perk::MagicalAwakening, Perk::MagicalAwakening) => true,
        (Perk::Dancer, Perk::Dancer) => true,
        (Perk::Athletic, Perk::Athletic) => true,
        (Perk::Diver, Perk::Diver) => true,
        (Perk::Irongut, Perk::Irongut) => true,
        (Perk::Kicker, Perk::Kicker) => true,
        (Perk::Vitality, Perk::Vitality) => true,
        (Perk::Evasive, Perk::Evasive) => true,
        (Perk::HeavySleeper, Perk::HeavySleeper) => true,
        (Perk::LightFooted, Perk::LightFooted) => true,
        (Perk::Reckless, Perk::Reckless) => true,
        (Perk::DanceOfDeath, Perk::DanceOfDeath) => true,
        (Perk::Tireless, Perk::Tireless) => true,
        (Perk::NightEyes, Perk::NightEyes) => true,
        (Perk::Wargamer, Perk::Wargamer) => true,
        (Perk::Gamer, Perk::Gamer) => true,
        (Perk::Numeracy, Perk::Numeracy) => true,
        (Perk::Retraining, Perk::Retraining) => true,
        (Perk::Alchemist, Perk::Alchemist) => true,
        (Perk::Chef, Perk::Chef) => true,
        (Perk::Pathfinder, Perk::Pathfinder) => true,
        (Perk::Literacy, Perk::Literacy) => true,
        (Perk::QuickStudy, Perk::QuickStudy) => true,
        (Perk::Reactionary, Perk::Reactionary) => true,
        _ => false,
    }
}

pub fn perk_eq(a: &Perk, b: &Perk) -> (r: bool)
    ensures
        r == spec_perk_eq(*a, *b),
{
    match (a, b) {
        (Perk::Craft(x), Perk::Craft(y)) => str_eq(x, y),
        (Perk::Lore(x), Perk::Lore(y)) => str_eq(x, y),
        (Perk::FightingStyle(x), Perk::FightingStyle(y)) => x == y,
        (Perk::RangedFightingStyle(x), Perk::RangedFightingStyle(y)) => x == y,
        (Perk::Addict, Perk::Addict) => true,
        (Perk::OldWound, Perk::OldWound) => true,
        (Perk::ArmourTraining, Perk::ArmourTraining) => true,
        (Perk::Swimmer, Perk::Swimmer) => true,
        (Perk::Knockout, Perk::Knockout) => true,
        (Perk::Mountaineer, Perk::Mountaineer) => true,
        (Perk::Grappler, Perk::Grappler) => true,
        (Perk::Riposte, Perk::Riposte) => true,
        (Perk::Sentinel, Perk::Sentinel) => true,
        (Perk::Adrenaline, Perk::Adrenaline) => true,
        (Perk::Feint, Perk::Feint) => true,
        (Perk::Momentum, Perk::Momentum) => true,
        (Perk::PerfectParry, Perk::PerfectParry) => true,
        (Perk::BulkBuyer, Perk::BulkBuyer) => true,
        (Perk::Manager, Perk::Manager) => true,
        (Perk::Passionate, Perk::Passionate) => true,
        (Perk::Ritualist, Perk::Ritualist) => true,
        (Perk::Bossy, Perk::Bossy) => true,
        (Perk::ColdRead, Perk::ColdRead) => true,
        (Perk::Indulgent, Perk::Indulgent) => true,
        (Perk::Retainer, Perk::Retainer) => true,
        (Perk::Torturer, Perk::Torturer) => true,
        (Perk::StoneHearted, Perk::StoneHearted) => true,
        (Perk::SturdyStuff, Perk::SturdyStuff) => true,
        (Perk::Bard, Perk::Bard) => true,
        (Perk::BraveFace, Perk::BraveFace) => true,
        (Perk::Impeccable, Perk::Impeccable) => true,
        (Perk::PerfectMask, Perk::PerfectMask) => true,
        (Perk::PiercingGaze, Perk::PiercingGaze) => true,
        (Perk::Tactician, Perk::Tactician) => true,
        (Perk::Horseriding, Perk::Horseriding) => true,
        (Perk::Marine, Perk::Marine) => true,
        (Perk::Instrumentalist, Perk::Instrumentalist) => true,
        (Perk::Ambidextrous, Perk::Ambidextrous) => true,
        (Perk::Disassembler, Perk::Disassembler) => true,
        (Perk::Finesse, Perk::Finesse) => true,
        (Perk::Trainer, Perk::Trainer) => true,
        (Perk::Captain, Perk::Captain) => true,
        (Perk::Locksmith, Perk::Locksmith) => true,
        (Perk::MountMastery, Perk::MountMastery) => true,
        (Perk::Quickdraw, Perk::Quickdraw) => true,
        (Perk::StrongBack, Perk::StrongBack) => true,
        (Perk::MagicalAwakening, Perk::MagicalAwakening) => true,
        (Perk::Dancer, Perk::Dancer) => true,
        (Perk::Athletic, Perk::Athletic) => true,
        (Perk::Diver, Perk::Diver) => true,
        (Perk::Irongut, Perk::Irongut) => true,
        (Perk::Kicker, Perk::Kicker) => true,
        (Perk::Vitality, Perk::Vitality) => true,
        (Perk::Evasive, Perk::Evasive) => true,
        (Perk::HeavySleeper, Perk::HeavySleeper) => true,
        (Perk::LightFooted, Perk::LightFooted) => true,
        (Perk::Reckless, Perk::Reckless) => true,
        (Perk::DanceOfDeath, Perk::DanceOfDeath) => true,
        (Perk::Tireless, Perk::Tireless) => true,
        (Perk::NightEyes, Perk::NightEyes) => true,
        (Perk::Wargamer, Perk::Wargamer) => true,
        (Perk::Gamer, Perk::Gamer) => true,
        (Perk::Numeracy, Perk::Numeracy) => true,
        (Perk::Retraining, Perk::Retraining) => true,
        (Perk::Alchemist, Perk::Alchemist) => true,
        (Perk::Chef, Perk::Chef) => true,
        (Perk::Pathfinder, Perk::Pathfinder) => true,
        (Perk::Literacy, Perk::Literacy) => true,
        (Perk::QuickStudy, Perk::QuickStudy) => true,
        (Perk::Reactionary, Perk::Reactionary) => true,
        _ => false,
    }
}

/// One slot of a perk table: free, a perk with the career class it came
/// from, or a wound taking the place of a perk.
#[derive(Copy, Clone, Debug)]
pub enum PerkSlot {
    Empty,
    Perk(Perk, Option<CareerClass>),
    Wound(&'static str),
}

impl Default for PerkSlot {
    fn default() -> (r: Self)
        ensures
            r is Empty,
    {
        PerkSlot::Empty
    }
}

pub const PERK_SLOTS: usize = 10;

/// Per-core-stat perk tables of ten slots each.
pub struct Perks {
    pub arms: Vec<PerkSlot>,
    pub face: Vec<PerkSlot>,
    pub hands: Vec<PerkSlot>,
    pub legs: Vec<PerkSlot>,
    pub mind: Vec<PerkSlot>,
}

/// Whether a stat owns a perk table: only the five core stats do.
pub open spec fn spec_has_perk_table(s: Stat) -> bool {
    match s {
        Stat::Arms | Stat::Face | Stat::Hands | Stat::Legs | Stat::Mind => true,
        _ => false,
    }
}

/// The perk table a core stat owns.
pub open spec fn spec_perk_table(p: Perks, s: Stat) -> Seq<PerkSlot>
    recommends
        spec_has_perk_table(s),
{
    match s {
        Stat::Arms => p.arms@,
        Stat::Face => p.face@,
        Stat::Hands => p.hands@,
        Stat::Legs => p.legs@,
        Stat::Mind => p.mind@,
        _ => p.arms@,
    }
}

/// The index of the first free slot of a table, or the table length when
/// every slot is taken.
pub open spec fn spec_first_free(s: Seq<PerkSlot>) -> int
    decreases s.len(),
{
    if s.len() == 0 {
        0
    } else if s[0] is Empty {
        0
    } else {
        1 + spec_first_free(s.skip(1))
    }
}

/// How many slots of a table hold the given perk.
pub open spec fn spec_count_perk(s: Seq<PerkSlot>, p: Perk) -> int
    decreases s.len(),
{
    if s.len() == 0 {
        0
    } else {
        spec_count_perk(s.drop_last(), p) + (match s.last() {
            PerkSlot::Perk(q, _) => if spec_perk_eq(q, p) {
                1int
            } else {
                0int
            },
            _ => 0int,
        })
    }
}

impl Perks {
    /// All five tables hold exactly ten slots.
    pub open spec fn wf(self) -> bool {
        &&& self.arms@.len() == PERK_SLOTS
        &&& self.face@.len() == PERK_SLOTS
        &&& self.hands@.len() == PERK_SLOTS
        &&& self.legs@.len() == PERK_SLOTS
        &&& self.mind@.len() == PERK_SLOTS
    }

    pub open spec fn is_empty_spec(self) -> bool {
        &&& self.wf()
        &&& forall|i: int| 0 <= i < PERK_SLOTS ==> self.arms@[i] is Empty && self.face@[i] is Empty
            && self.hands@[i] is Empty && self.legs@[i] is Empty && self.mind@[i] is Empty
    }

    pub fn new() -> (p: Perks)
        ensures
            p.is_empty_spec(),
    {
        Perks {
            arms: empty_table(),
            face: empty_table(),
            hands: empty_table(),
            legs: empty_table(),
            mind: empty_table(),
        }
    }

    /// The perk table owned by a core stat, read-only.
    pub fn get_table(&self, stat: Stat) -> (t: &Vec<PerkSlot>)
        requires
            spec_has_perk_table(stat),
        ensures
            t@ == spec_perk_table(*self, stat),
    {
        match stat {
            Stat::Arms => &self.arms,
            Stat::Face => &self.face,
            Stat::Hands => &self.hands,
            Stat::Legs => &self.legs,
            _ => &self.mind,
        }
    }

    /// The perk table owned by a core stat, writable: the tables of the
    /// other stats keep their contents.
    pub fn get_table_mut(&mut self, stat: Stat) -> (t: &mut Vec<PerkSlot>)
        requires
            spec_has_perk_table(stat),
        ensures
            t@ == spec_perk_table(*old(self), stat),
            spec_perk_table(*final(self), stat) == final(t)@,
            forall|s: Stat|
                spec_has_perk_table(s) && s != stat ==> spec_perk_table(*final(self), s)
                    == spec_perk_table(*old(self), s),
    {
        match stat {
            Stat::Arms => &mut self.arms,
            Stat::Face => &mut self.face,
            Stat::Hands => &mut self.hands,
            Stat::Legs => &mut self.legs,
            _ => &mut self.mind,
        }
    }

    /// Puts a perk into the first free slot of the stat's table; fails with
    /// no change when every slot is taken.
    pub fn insert_perk(&mut self, stat: Stat, perk: Perk, provenance: Option<CareerClass>) -> (r:
        Result<(), ()>)
        requires
            spec_has_perk_table(stat),
            old(self).wf(),
        ensures
            final(self).wf(),
            spec_first_free(spec_perk_table(*old(self), stat)) < PERK_SLOTS ==> r is Ok
                && spec_perk_table(*final(self), stat) == spec_perk_table(
                *old(self),
                stat,
            ).update(
                spec_first_free(spec_perk_table(*old(self), stat)),
                PerkSlot::Perk(perk, provenance),
            ),
            spec_first_free(spec_perk_table(*old(self), stat)) >= PERK_SLOTS ==> r is Err
                && spec_perk_table(*final(self), stat) == spec_perk_table(*old(self), stat),
            forall|s: Stat|
                spec_has_perk_table(s) && s != stat ==> spec_perk_table(*final(self), s)
                    == spec_perk_table(*old(self), s),
    {
        let table: &mut Vec<PerkSlot> = match stat {
            Stat::Arms => &mut self.arms,
            Stat::Face => &mut self.face,
            Stat::Hands => &mut self.hands,
            Stat::Legs => &mut self.legs,
            _ => &mut self.mind,
        };
        let r = insert_into_table(table, perk, provenance);
        r
    }

    /// How many copies of a perk the stat's table holds.
    pub fn count_perk(&self, stat: Stat, perk: &Perk) -> (n: usize)
        requires
            spec_has_perk_table(stat),
            self.wf(),
        ensures
            n as int == spec_count_perk(spec_perk_table(*self, stat), *perk),
    {
        let table = self.get_table(stat);
        let mut n: usize = 0;
        let mut i: usize = 0;
        while i < table.len()
            invariant
                0 <= i <= table@.len(),
                table@.len() == PERK_SLOTS,
                n as int == spec_count_perk(table@.take(i as int), *perk),
                n <= i,
            decreases table@.len() - i,
        {
            proof {
                assert(table@.take(i as int + 1).drop_last() =~= table@.take(i as int));
                assert(table@.take(i as int + 1).last() == table@[i as int]);
            }
            match &table[i] {
                PerkSlot::Perk(q, _) => {
                    if perk_eq(q, perk) {
                        n = n + 1;
                    }
                },
                _ => {},
            }
            i = i + 1;
        }
        proof {
            assert(table@.take(table@.len() as int) =~= table@);
        }
        n
    }
}

fn empty_table() -> (t: Vec<PerkSlot>)
    ensures
        t@.len() == PERK_SLOTS,
        forall|i: int| 0 <= i < t@.len() ==> #[trigger] t@[i] is Empty,
{
    let mut t: Vec<PerkSlot> = Vec::new();
    let mut i: usize = 0;
    while i < PERK_SLOTS
        invariant
            0 <= i <= PERK_SLOTS,
            t@.len() == i,
            forall|j: int| 0 <= j < t@.len() ==> #[trigger] t@[j] is Empty,
        decreases PERK_SLOTS - i,
    {
        t.push(PerkSlot::Empty);
        i = i + 1;
    }
    t
}

fn insert_into_table(table: &mut Vec<PerkSlot>, perk: Perk, provenance: Option<CareerClass>) -> (r:
    Result<(), ()>)
    ensures
        final(table)@.len() == old(table)@.len(),
        spec_first_free(old(table)@) < old(table)@.len() ==> r is Ok && final(table)@ == old(
            table,
        )@.update(spec_first_free(old(table)@), PerkSlot::Perk(perk, provenance)),
        spec_first_free(old(table)@) >= old(table)@.len() ==> r is Err && final(table)@ == old(
            table,
        )@,
{
    proof {
        lemma_first_free_nonneg(table@);
    }
    let mut i: usize = 0;
    while i < table.len()
        invariant
            0 <= i <= table@.len(),
            table@ == old(table)@,
            forall|j: int| 0 <= j < i ==> !(#[trigger] table@[j] is Empty),
            spec_first_free(old(table)@) >= i,
        decreases table@.len() - i,
    {
        proof {
            lemma_first_free_step(table@, i as int);
        }
        match &table[i] {
            PerkSlot::Empty => {
                table.set(i, PerkSlot::Perk(perk, provenance));
                return Ok(());
            },
            _ => {},
        }
        i = i + 1;
    }
    Err(())
}

proof fn lemma_first_free_step(s: Seq<PerkSlot>, i: int)
    requires
        0 <= i < s.len(),
        forall|j: int| 0 <= j < i ==> !(#[trigger] s[j] is Empty),
    ensures
        s[i] is Empty ==> spec_first_free(s) == i,
        !(s[i] is Empty) ==> spec_first_free(s) >= i + 1,
    decreases i,
{
    if i == 0 {
        if !(s[0] is Empty) {
            lemma_first_free_nonneg(s.skip(1));
        }
    } else {
        lemma_first_free_step(s.skip(1), i - 1);
        assert(forall|j: int| 0 <= j < i - 1 ==> !(#[trigger] s.skip(1)[j] is Empty));
        assert(s.skip(1)[i - 1] == s[i]);
    }
}

proof fn lemma_first_free_nonneg(s: Seq<PerkSlot>)
    ensures
        spec_first_free(s) >= 0,
    decreases s.len(),
{
    if s.len() > 0 && !(s[0] is Empty) {
        lemma_first_free_nonneg(s.skip(1));
    }
}

} // verus!
