//! The life-path resolution state machine: given a birthplace, culture and
//! a starting rank, it resolves an affiliation, a rank and a terminal
//! career, looping through rerolls, disadvantage and conversion prompts.
//! Every transition is a bounded step whose exact effect on the machine,
//! the character and the published choice is given by a spec model.

use crate::backend::{
    spec_set_affiliation, spec_set_career, spec_set_faith, spec_set_omen, spec_set_rank,
    BackendV, BaseBackend,
};
use crate::careers::{
    get_affiliation, get_careers, spec_affiliation_name, spec_career_display, spec_get_affiliation,
    spec_get_careers, Affiliation, Career, CareerTableEntry, CareerTableStar,
};
use crate::character::BirthOmen;
use crate::dice::{pool_greatest, AsPool, DiceRoll, PickHighest};
use crate::event::{
    input_fits, req_wf, AnswerKind, Expect, Input, Outcome, OutcomeV, RollRequest, Rolls,
};
use crate::ipc::{Answer, Choice, ChoiceV, Choosable, PickRoll, Question, Selection};
use crate::locations::{spec_faith_name, spec_faith_variant, Culture, Faith};
use vstd::prelude::*;
use vstd::string::StringExecFns;

verus! {

/// The fields the resolution machine reads must already be set: the stage
/// sequencer guarantees a birthplace, culture, faith and rank before any
/// affiliation is rolled.
pub open spec fn lifepath_ready(b: BackendV) -> bool {
    &&& b.character.birth_location is Some
    &&& b.character.culture is Some
    &&& b.character.faith is Some
    &&& b.character.rank is Some
}

/// As `lifepath_ready`, with the affiliation set too: what career
/// resolution needs.
pub open spec fn career_ready(b: BackendV) -> bool {
    &&& lifepath_ready(b)
    &&& b.character.affiliation is Some
}

/// Where the affiliation roll stands: about to roll, waiting for the
/// pool, offering a prophetic-signs override, or waiting on a conversion.
#[derive(Copy, Clone, Debug, PartialEq, Eq, Structural)]
pub enum AffState {
    Start,
    AwaitDice { count: usize },
    AwaitPick { rolled: i8 },
    AwaitConvert { faith: Faith },
    Done,
}

/// The affiliation roll: a pool rolled with advantage against the
/// birthplace's table, re-entered with one rank lost whenever a required
/// conversion is refused.
#[derive(Copy, Clone, Debug, PartialEq, Eq, Structural)]
pub struct AffiliationProc {
    pub disadvantage: usize,
    pub state: AffState,
}

/// The question asked when a rolled affiliation requires a faith the
/// character does not hold.
pub open spec fn spec_convert_question(aff: Affiliation, f: Faith) -> Seq<char> {
    "To be a "@ + spec_affiliation_name(aff) + " you must follow "@ + spec_faith_name(f)
        + ". Do you convert? If you don't, fall one rank and re-roll affiliation."@
}

fn convert_question(aff: Affiliation, f: Faith) -> (s: String)
    ensures
        s@ == spec_convert_question(aff, f),
{
    let mut s = String::from_str("To be a ");
    s.append(aff.name());
    s.append(" you must follow ");
    s.append(f.name());
    s.append(". Do you convert? If you don't, fall one rank and re-roll affiliation.");
    s
}

/// Resolving a rolled percentile value: adopt the affiliation it lands
/// on; a faith-gated affiliation is kept outright on a matching faith and
/// otherwise raises the conversion question.
pub open spec fn spec_aff_resolve(m: AffiliationProc, b: BackendV, value: i8) -> (
    AffiliationProc,
    BackendV,
    OutcomeV,
) {
    let loc = b.character.birth_location->Some_0;
    let aff = spec_get_affiliation(loc, value);
    let b1 = spec_set_affiliation(b, aff);
    match aff.spec_star(loc) {
        CareerTableStar::Open => (
            AffiliationProc { state: AffState::Done, ..m },
            b1,
            OutcomeV::Done,
        ),
        CareerTableStar::NeedsFaith(f) => if b1.character.faith == Some(f) {
            (AffiliationProc { state: AffState::Done, ..m }, b1, OutcomeV::Done)
        } else {
            (
                AffiliationProc { state: AffState::AwaitConvert { faith: f }, ..m },
                b1,
                OutcomeV::Ask(ChoiceV::Question { description: spec_convert_question(aff, f) }),
            )
        },
        CareerTableStar::NeedsFaithAndCulture(_, _) => (
            AffiliationProc { state: AffState::Done, ..m },
            b1,
            OutcomeV::TableFault,
        ),
    }
}

/// One step of the affiliation roll.
pub open spec fn spec_aff_advance(m: AffiliationProc, b: BackendV, input: Input) -> (
    AffiliationProc,
    BackendV,
    OutcomeV,
) {
    match m.state {
        AffState::Start => {
            let loc = b.character.birth_location->Some_0;
            let culture = b.character.culture->Some_0;
            let base: int = if loc.culture == culture {
                1
            } else {
                2
            };
            let count = (base + m.disadvantage) as usize;
            (
                AffiliationProc { state: AffState::AwaitDice { count }, ..m },
                b,
                OutcomeV::NeedRoll(RollRequest::HundredPool { count }),
            )
        },
        AffState::AwaitDice { count } => match input {
            Input::Rolled(r) => match r {
                Rolls::Hundred(p) => {
                    let value = pool_greatest(p.spec_pool()) as i8;
                    match b.character.omen {
                        Option::Some(BirthOmen::PropheticSigns(charges)) => if charges > 0 {
                            (
                                AffiliationProc { state: AffState::AwaitPick { rolled: value }, ..m },
                                b,
                                OutcomeV::Ask(
                                    ChoiceV::PickRoll {
                                        description: "Roll a new affiliation"@,
                                        min: 1,
                                        max: 100,
                                    },
                                ),
                            )
                        } else {
                            spec_aff_resolve(m, b, value)
                        },
                        _ => spec_aff_resolve(m, b, value),
                    }
                },
                _ => (m, b, OutcomeV::TableFault),
            },
            _ => (m, b, OutcomeV::TableFault),
        },
        AffState::AwaitPick { rolled } => match input {
            Input::Answered(a) => match a {
                Answer::Picked(opt) => match opt {
                    Option::Some(i) => {
                        let b1 = match b.character.omen {
                            Option::Some(BirthOmen::PropheticSigns(c)) => if c > 0 {
                                spec_set_omen(b, BirthOmen::PropheticSigns((c - 1) as usize))
                            } else {
                                b
                            },
                            _ => b,
                        };
                        spec_aff_resolve(m, b1, i)
                    },
                    Option::None => spec_aff_resolve(m, b, rolled),
                },
                _ => (m, b, OutcomeV::TableFault),
            },
            _ => (m, b, OutcomeV::TableFault),
        },
        AffState::AwaitConvert { faith } => match input {
            Input::Answered(a) => match a {
                Answer::YesNo(yes) => if yes {
                    (
                        AffiliationProc { state: AffState::Done, ..m },
                        spec_set_faith(b, faith),
                        OutcomeV::Done,
                    )
                } else {
                    let rank = b.character.rank->Some_0;
                    let lowered: i8 = if rank >= 1 {
                        (rank - 1) as i8
                    } else {
                        0
                    };
                    (
                        AffiliationProc { disadvantage: 0, state: AffState::Start },
                        spec_set_rank(b, lowered),
                        OutcomeV::Working,
                    )
                },
                _ => (m, b, OutcomeV::TableFault),
            },
            _ => (m, b, OutcomeV::TableFault),
        },
        AffState::Done => (m, b, OutcomeV::TableFault),
    }
}

impl AffiliationProc {
    /// Structural bounds of the machine state.
    pub open spec fn inv(self) -> bool {
        &&& self.disadvantage <= 100
        &&& (self.state matches AffState::AwaitDice { count } ==> 1 <= count <= 102)
        &&& (self.state matches AffState::AwaitPick { rolled } ==> 1 <= rolled <= 100)
    }

    /// What the machine awaits next.
    pub open spec fn expecting(self) -> Expect {
        match self.state {
            AffState::Start => Expect::Go,
            AffState::AwaitDice { count } => Expect::Roll(RollRequest::HundredPool { count }),
            AffState::AwaitPick { .. } => Expect::Answer(AnswerKind::Pick),
            AffState::AwaitConvert { .. } => Expect::Answer(AnswerKind::YesNo),
            AffState::Done => Expect::Finished,
        }
    }

    /// A fresh affiliation roll at the given disadvantage level.
    pub fn new(disadvantage: usize) -> (m: AffiliationProc)
        requires
            disadvantage <= 100,
        ensures
            m == (AffiliationProc { disadvantage, state: AffState::Start }),
    {
        AffiliationProc { disadvantage, state: AffState::Start }
    }

    /// One step of the affiliation roll, exactly as the model gives it.
    pub fn advance(&mut self, b: &mut BaseBackend, input: Input) -> (o: Outcome)
        requires
            old(b)@.inv(),
            lifepath_ready(old(b)@),
            old(self).inv(),
            input_fits(old(self).expecting(), input),
        ensures
            final(b)@.inv(),
            lifepath_ready(final(b)@),
            final(self).inv(),
            *final(self) == spec_aff_advance(*old(self), old(b)@, input).0,
            final(b)@ == spec_aff_advance(*old(self), old(b)@, input).1,
            o@ == spec_aff_advance(*old(self), old(b)@, input).2,
            o@ is Working ==> final(self).expecting() is Go,
            o@ matches OutcomeV::NeedRoll(r) ==> final(self).expecting() == Expect::Roll(r)
                && req_wf(r),
            o@ matches OutcomeV::Ask(c) ==> final(self).expecting() == Expect::Answer(
                spec_choice_kind(c),
            ),
            o@ is Done ==> final(self).expecting() is Finished,
            final(b)@.character.affiliation is Some || final(b)@.character.affiliation
                == old(b)@.character.affiliation,
    {
        match self.state {
            AffState::Start => {
                let loc = b.character.birth_location.unwrap();
                let culture = b.character.culture.unwrap();
                let base: usize = if loc.culture == culture {
                    1
                } else {
                    2
                };
                let count = base + self.disadvantage;
                self.state = AffState::AwaitDice { count };
                Outcome::NeedRoll(RollRequest::HundredPool { count })
            },
            AffState::AwaitDice { count: _ } => {
                match input {
                    Input::Rolled(Rolls::Hundred(p)) => {
                        proof {
                            p.lemma_pool_in_range();
                            crate::dice::lemma_pool_greatest_bounds(p.spec_pool(), 1, 100);
                        }
                        let roll = PickHighest(p);
                        let value = roll.result();
                        match b.get_omen() {
                            Option::Some(BirthOmen::PropheticSigns(charges)) if charges > 0 => {
                                self.state = AffState::AwaitPick { rolled: value };
                                Outcome::Ask(
                                    Choice::PickRoll(
                                        PickRoll {
                                            description: String::from_str(
                                                "Roll a new affiliation",
                                            ),
                                            min: 1,
                                            max: 100,
                                        },
                                    ),
                                )
                            },
                            _ => self.resolve(b, value),
                        }
                    },
                    _ => {
                        proof {
                            assert(false);
                        }
                        Outcome::TableFault
                    },
                }
            },
            AffState::AwaitPick { rolled } => {
                match input {
                    Input::Answered(Answer::Picked(opt)) => {
                        match opt {
                            Option::Some(i) => {
                                match b.get_omen() {
                                    Option::Some(BirthOmen::PropheticSigns(c)) if c > 0 => {
                                        b.set_omen(BirthOmen::PropheticSigns(c - 1));
                                    },
                                    _ => {},
                                }
                                self.resolve(b, i)
                            },
                            Option::None => self.resolve(b, rolled),
                        }
                    },
                    _ => {
                        proof {
                            assert(false);
                        }
                        Outcome::TableFault
                    },
                }
            },
            AffState::AwaitConvert { faith } => {
                match input {
                    Input::Answered(Answer::YesNo(yes)) => {
                        if yes {
                            b.set_faith(faith);
                            self.state = AffState::Done;
                            Outcome::Done
                        } else {
                            let rank = b.character.rank.unwrap();
                            let lowered: i8 = if rank >= 1 {
                                rank - 1
                            } else {
                                0
                            };
                            b.set_rank(lowered);
                            self.disadvantage = 0;
                            self.state = AffState::Start;
                            Outcome::Working
                        }
                    },
                    _ => {
                        proof {
                            assert(false);
                        }
                        Outcome::TableFault
                    },
                }
            },
            AffState::Done => {
                proof {
                    assert(false);
                }
                Outcome::TableFault
            },
        }
    }

    /// Adopts the affiliation a percentile value lands on, asking for a
    /// conversion where its faith gate is unmet.
    fn resolve(&mut self, b: &mut BaseBackend, value: i8) -> (o: Outcome)
        requires
            old(b)@.inv(),
            lifepath_ready(old(b)@),
            old(self).inv(),
            1 <= value <= 100,
        ensures
            final(b)@.inv(),
            lifepath_ready(final(b)@),
            final(self).inv(),
            *final(self) == spec_aff_resolve(*old(self), old(b)@, value).0,
            final(b)@ == spec_aff_resolve(*old(self), old(b)@, value).1,
            o@ == spec_aff_resolve(*old(self), old(b)@, value).2,
    {
        let loc = b.character.birth_location.unwrap();
        let affiliation = get_affiliation(&loc, value);
        b.set_affiliation(affiliation);
        match affiliation.star(&loc) {
            CareerTableStar::Open => {
                self.state = AffState::Done;
                Outcome::Done
            },
            CareerTableStar::NeedsFaith(f) => {
                if b.character.faith.unwrap() == f {
                    self.state = AffState::Done;
                    Outcome::Done
                } else {
                    self.state = AffState::AwaitConvert { faith: f };
                    Outcome::Ask(
                        Choice::Question(Question { description: convert_question(affiliation, f) }),
                    )
                }
            },
            CareerTableStar::NeedsFaithAndCulture(_, _) => {
                self.state = AffState::Done;
                Outcome::TableFault
            },
        }
    }
}

/// The kind of answer a published choice calls for.
pub open spec fn spec_choice_kind(c: ChoiceV) -> AnswerKind {
    match c {
        ChoiceV::Selection { .. } => AnswerKind::Select,
        ChoiceV::Text { .. } => AnswerKind::Text,
        ChoiceV::PickRoll { .. } => AnswerKind::Pick,
        ChoiceV::Question { .. } => AnswerKind::YesNo,
    }
}

/// Whether a culture may take a career behind this gate: culture gates
/// are hard filters, faith gates are not.
pub open spec fn spec_is_eligible(culture: Culture, star: CareerTableStar) -> bool {
    match star {
        CareerTableStar::Open => true,
        CareerTableStar::NeedsFaith(_) => true,
        CareerTableStar::NeedsFaithAndCulture(_, c) => culture == c,
    }
}

pub fn is_eligible(culture: Culture, career_table_star: CareerTableStar) -> (r: bool)
    ensures
        r == spec_is_eligible(culture, career_table_star),
{
    match career_table_star {
        CareerTableStar::Open => true,
        CareerTableStar::NeedsFaith(_) => true,
        CareerTableStar::NeedsFaithAndCulture(_, c) => culture == c,
    }
}

/// The question asked when a picked career requires a faith the character
/// does not hold.
pub open spec fn spec_career_convert_question(f: Faith) -> Seq<char> {
    "You need to be a "@ + spec_faith_variant(f) + " to take that career. Do you convert?"@
}

fn career_convert_question(f: Faith) -> (s: String)
    ensures
        s@ == spec_career_convert_question(f),
{
    let mut s = String::from_str("You need to be a ");
    s.append(f.variant_name());
    s.append(" to take that career. Do you convert?");
    s
}

/// The prompt over a two-career entry: the very first career resolved
/// belongs to the guardians.
pub open spec fn spec_career_pick_prompt(b: BackendV) -> Seq<char> {
    if b.character.parents_career is None {
        "Pick your guardians' career:"@
    } else {
        "Pick your career:"@
    }
}

/// Where career resolution stands: looking up the table, re-rolling the
/// affiliation, waiting on a career pick, or waiting on a conversion.
#[derive(Copy, Clone, Debug)]
pub enum CareerState {
    Resolve,
    InAffiliation(AffiliationProc),
    AwaitPick { c1: Career, s1: CareerTableStar, c2: Career, s2: CareerTableStar },
    AwaitConvert { career: Career, faith: Faith },
    Done,
}

/// Career resolution: looks the table entry up for the current
/// affiliation at the held rank and follows redirects, rerolls and gates
/// until a terminal career is appended.
#[derive(Copy, Clone, Debug)]
pub struct CareerProc {
    pub rank: i8,
    pub state: CareerState,
}

/// Taking a career ends the resolution.
pub open spec fn spec_take_career(rank: i8, b: BackendV, career: Career) -> (
    CareerProc,
    BackendV,
    OutcomeV,
) {
    (CareerProc { rank, state: CareerState::Done }, spec_set_career(b, career), OutcomeV::Done)
}

/// Applying a career's gate: an open career is taken; a faith gate is
/// passed outright on a matching faith and prompts a conversion
/// otherwise; a culture gate that does not match sends the resolution
/// back to the table (the defensive path for entries that should have
/// been filtered out).
pub open spec fn spec_handle_star(rank: i8, b: BackendV, career: Career, star: CareerTableStar) -> (
    CareerProc,
    BackendV,
    OutcomeV,
) {
    match star {
        CareerTableStar::Open => spec_take_career(rank, b, career),
        CareerTableStar::NeedsFaith(f) => if b.character.faith == Some(f) {
            spec_take_career(rank, b, career)
        } else {
            (
                CareerProc { rank, state: CareerState::AwaitConvert { career, faith: f } },
                b,
                OutcomeV::Ask(ChoiceV::Question { description: spec_career_convert_question(f) }),
            )
        },
        CareerTableStar::NeedsFaithAndCulture(f, c) => if b.character.culture == Some(c) {
            if b.character.faith == Some(f) {
                spec_take_career(rank, b, career)
            } else {
                (
                    CareerProc { rank, state: CareerState::AwaitConvert { career, faith: f } },
                    b,
                    OutcomeV::Ask(
                        ChoiceV::Question { description: spec_career_convert_question(f) },
                    ),
                )
            }
        } else {
            (CareerProc { rank, state: CareerState::Resolve }, b, OutcomeV::Working)
        },
    }
}

/// One step of career resolution.
pub open spec fn spec_career_advance(m: CareerProc, b: BackendV, input: Input) -> (
    CareerProc,
    BackendV,
    OutcomeV,
) {
    match m.state {
        CareerState::Resolve => {
            let loc = b.character.birth_location->Some_0;
            let aff = b.character.affiliation->Some_0;
            let culture = b.character.culture->Some_0;
            match spec_get_careers(loc, aff, m.rank) {
                CareerTableEntry::Career(c, star) => spec_handle_star(m.rank, b, c, star),
                CareerTableEntry::Careers((c1, s1), (c2, s2)) => if !spec_is_eligible(culture, s1) {
                    spec_handle_star(m.rank, b, c2, s2)
                } else if !spec_is_eligible(culture, s2) {
                    spec_handle_star(m.rank, b, c1, s1)
                } else {
                    (
                        CareerProc { rank: m.rank, state: CareerState::AwaitPick { c1, s1, c2, s2 } },
                        b,
                        OutcomeV::Ask(
                            ChoiceV::Selection {
                                description: spec_career_pick_prompt(b),
                                options: seq![spec_career_display(c1), spec_career_display(c2)],
                            },
                        ),
                    )
                },
                CareerTableEntry::RemainAtRank(r) => (
                    CareerProc {
                        rank: crate::backend::spec_clamp_rank(r),
                        state: CareerState::Resolve,
                    },
                    spec_set_rank(b, r),
                    OutcomeV::Working,
                ),
                CareerTableEntry::ChangeAffiliation(a) => (
                    m,
                    spec_set_affiliation(b, a),
                    OutcomeV::Working,
                ),
                CareerTableEntry::RerollWithDisadvantage => (
                    CareerProc {
                        rank: m.rank,
                        state: CareerState::InAffiliation(
                            AffiliationProc { disadvantage: 1, state: AffState::Start },
                        ),
                    },
                    b,
                    OutcomeV::Working,
                ),
                CareerTableEntry::Reroll => (
                    CareerProc {
                        rank: m.rank,
                        state: CareerState::InAffiliation(
                            AffiliationProc { disadvantage: 0, state: AffState::Start },
                        ),
                    },
                    b,
                    OutcomeV::Working,
                ),
            }
        },
        CareerState::InAffiliation(ap) => {
            let stepped = spec_aff_advance(ap, b, input);
            if stepped.2 is Done {
                (
                    CareerProc { rank: stepped.1.character.rank->Some_0, state: CareerState::Resolve },
                    stepped.1,
                    OutcomeV::Working,
                )
            } else if stepped.2 is TableFault {
                (CareerProc { rank: m.rank, state: CareerState::Done }, stepped.1, OutcomeV::TableFault)
            } else {
                (
                    CareerProc { rank: m.rank, state: CareerState::InAffiliation(stepped.0) },
                    stepped.1,
                    stepped.2,
                )
            }
        },
        CareerState::AwaitPick { c1, s1, c2, s2 } => match input {
            Input::Answered(a) => match a {
                Answer::Selected(i) => if i == 0 {
                    spec_handle_star(m.rank, b, c1, s1)
                } else {
                    spec_handle_star(m.rank, b, c2, s2)
                },
                _ => (m, b, OutcomeV::TableFault),
            },
            _ => (m, b, OutcomeV::TableFault),
        },
        CareerState::AwaitConvert { career, faith } => match input {
            Input::Answered(a) => match a {
                Answer::YesNo(yes) => if yes {
                    spec_take_career(m.rank, spec_set_faith(b, faith), career)
                } else {
                    (CareerProc { rank: m.rank, state: CareerState::Resolve }, b, OutcomeV::Working)
                },
                _ => (m, b, OutcomeV::TableFault),
            },
            _ => (m, b, OutcomeV::TableFault),
        },
        CareerState::Done => (m, b, OutcomeV::TableFault),
    }
}

impl CareerProc {
    pub open spec fn inv(self) -> bool {
        &&& 0 <= self.rank <= 9
        &&& (self.state matches CareerState::InAffiliation(ap) ==> ap.inv())
    }

    pub open spec fn expecting(self) -> Expect {
        match self.state {
            CareerState::Resolve => Expect::Go,
            CareerState::InAffiliation(ap) => ap.expecting(),
            CareerState::AwaitPick { .. } => Expect::Answer(AnswerKind::Select),
            CareerState::AwaitConvert { .. } => Expect::Answer(AnswerKind::YesNo),
            CareerState::Done => Expect::Finished,
        }
    }

    /// A fresh career resolution at the given rank, clamped to the valid
    /// band as every stored rank is.
    pub fn new(rank: i8) -> (m: CareerProc)
        ensures
            m == (CareerProc {
                rank: crate::backend::spec_clamp_rank(rank),
                state: CareerState::Resolve,
            }),
            m.inv(),
    {
        let clamped = if rank < 0 {
            0
        } else if rank > 9 {
            9
        } else {
            rank
        };
        CareerProc { rank: clamped, state: CareerState::Resolve }
    }

    /// One step of career resolution, exactly as the model gives it.
    pub fn advance(&mut self, b: &mut BaseBackend, input: Input) -> (o: Outcome)
        requires
            old(b)@.inv(),
            career_ready(old(b)@),
            old(self).inv(),
            input_fits(old(self).expecting(), input),
            career_input_ok(*old(self), input),
        ensures
            final(b)@.inv(),
            career_ready(final(b)@),
            final(self).inv(),
            *final(self) == spec_career_advance(*old(self), old(b)@, input).0,
            final(b)@ == spec_career_advance(*old(self), old(b)@, input).1,
            o@ == spec_career_advance(*old(self), old(b)@, input).2,
            o@ is Working ==> final(self).expecting() is Go,
            o@ matches OutcomeV::NeedRoll(r) ==> final(self).expecting() == Expect::Roll(r)
                && req_wf(r),
            o@ matches OutcomeV::Ask(c) ==> final(self).expecting() == Expect::Answer(
                spec_choice_kind(c),
            ),
            o@ is Done ==> final(self).expecting() is Finished,
    {
        match self.state {
            CareerState::Resolve => {
                let loc = b.character.birth_location.unwrap();
                let aff = b.character.affiliation.unwrap();
                let culture = b.character.culture.unwrap();
                match get_careers(&loc, aff, self.rank) {
                    CareerTableEntry::Career(c, star) => self.handle_star(b, c, star),
                    CareerTableEntry::Careers((c1, s1), (c2, s2)) => {
                        if !is_eligible(culture, s1) {
                            self.handle_star(b, c2, s2)
                        } else if !is_eligible(culture, s2) {
                            self.handle_star(b, c1, s1)
                        } else {
                            let description = if b.character.parents_career.is_none() {
                                String::from_str("Pick your guardians' career:")
                            } else {
                                String::from_str("Pick your career:")
                            };
                            let options = vec![
                                Choosable::from(c1.display()),
                                Choosable::from(c2.display()),
                            ];
                            let choice = Choice::Selection(Selection { description, options });
                            proof {
                                assert(choice@->Selection_options =~= seq![
                                    spec_career_display(c1),
                                    spec_career_display(c2),
                                ]);
                            }
                            self.state = CareerState::AwaitPick { c1, s1, c2, s2 };
                            Outcome::Ask(choice)
                        }
                    },
                    CareerTableEntry::RemainAtRank(r) => {
                        b.set_rank(r);
                        self.rank = if r < 0 {
                            0
                        } else if r > 9 {
                            9
                        } else {
                            r
                        };
                        self.state = CareerState::Resolve;
                        Outcome::Working
                    },
                    CareerTableEntry::ChangeAffiliation(a) => {
                        b.set_affiliation(a);
                        Outcome::Working
                    },
                    CareerTableEntry::RerollWithDisadvantage => {
                        self.state = CareerState::InAffiliation(AffiliationProc::new(1));
                        Outcome::Working
                    },
                    CareerTableEntry::Reroll => {
                        self.state = CareerState::InAffiliation(AffiliationProc::new(0));
                        Outcome::Working
                    },
                }
            },
            CareerState::InAffiliation(ap) => {
                let mut inner = ap;
                let o = inner.advance(b, input);
                match o {
                    Outcome::Done => {
                        self.rank = b.character.rank.unwrap();
                        self.state = CareerState::Resolve;
                        Outcome::Working
                    },
                    Outcome::TableFault => {
                        self.state = CareerState::Done;
                        Outcome::TableFault
                    },
                    _ => {
                        self.state = CareerState::InAffiliation(inner);
                        o
                    },
                }
            },
            CareerState::AwaitPick { c1, s1, c2, s2 } => {
                match input {
                    Input::Answered(Answer::Selected(i)) => {
                        if i == 0 {
                            self.handle_star(b, c1, s1)
                        } else {
                            self.handle_star(b, c2, s2)
                        }
                    },
                    _ => {
                        proof {
                            assert(false);
                        }
                        Outcome::TableFault
                    },
                }
            },
            CareerState::AwaitConvert { career, faith } => {
                match input {
                    Input::Answered(Answer::YesNo(yes)) => {
                        if yes {
                            b.set_faith(faith);
                            b.set_career(career);
                            self.state = CareerState::Done;
                            Outcome::Done
                        } else {
                            self.state = CareerState::Resolve;
                            Outcome::Working
                        }
                    },
                    _ => {
                        proof {
                            assert(false);
                        }
                        Outcome::TableFault
                    },
                }
            },
            CareerState::Done => {
                proof {
                    assert(false);
                }
                Outcome::TableFault
            },
        }
    }

    /// Applies a career's gate, as `spec_handle_star` gives it.
    fn handle_star(&mut self, b: &mut BaseBackend, career: Career, star: CareerTableStar) -> (o:
        Outcome)
        requires
            old(b)@.inv(),
            career_ready(old(b)@),
            old(self).inv(),
        ensures
            final(b)@.inv(),
            career_ready(final(b)@),
            final(self).inv(),
            *final(self) == spec_handle_star(old(self).rank, old(b)@, career, star).0,
            final(b)@ == spec_handle_star(old(self).rank, old(b)@, career, star).1,
            o@ == spec_handle_star(old(self).rank, old(b)@, career, star).2,
    {
        match star {
            CareerTableStar::Open => {
                b.set_career(career);
                self.state = CareerState::Done;
                Outcome::Done
            },
            CareerTableStar::NeedsFaith(f) => {
                if b.character.faith.unwrap() == f {
                    b.set_career(career);
                    self.state = CareerState::Done;
                    Outcome::Done
                } else {
                    self.state = CareerState::AwaitConvert { career, faith: f };
                    Outcome::Ask(
                        Choice::Question(Question { description: career_convert_question(f) }),
                    )
                }
            },
            CareerTableStar::NeedsFaithAndCulture(f, c) => {
                if b.character.culture.unwrap() == c {
                    if b.character.faith.unwrap() == f {
                        b.set_career(career);
                        self.state = CareerState::Done;
                        Outcome::Done
                    } else {
                        self.state = CareerState::AwaitConvert { career, faith: f };
                        Outcome::Ask(
                            Choice::Question(Question { description: career_convert_question(f) }),
                        )
                    }
                } else {
                    self.state = CareerState::Resolve;
                    Outcome::Working
                }
            },
        }
    }
}

/// Why the affiliation loop settles for any finite starting rank: no
/// transition of the machine ever raises the stored rank, and refusing a
/// conversion at a positive rank lowers it by exactly one, so a run sees
/// at most nine rank-lowering refusals before the rank rests at zero.
/// From rank zero a refusal leaves the rank at zero — there the loop goes
/// on only as long as the dice keep landing on faith-gated affiliations
/// and the driver keeps refusing.
pub proof fn lemma_affiliation_rank_decreases(m: AffiliationProc, b: BackendV, input: Input)
    requires
        b.inv(),
        lifepath_ready(b),
        m.inv(),
        input_fits(m.expecting(), input),
    ensures
        spec_aff_advance(m, b, input).1.character.rank is Some,
        spec_aff_advance(m, b, input).1.character.rank->Some_0 <= b.character.rank->Some_0,
        m.state matches AffState::AwaitConvert { .. } && input matches Input::Answered(
            Answer::YesNo(false),
        ) && b.character.rank->Some_0 > 0 ==> spec_aff_advance(m, b, input).1.character.rank->Some_0
            == b.character.rank->Some_0 - 1,
{
}

/// The one answer-content demand beyond the answer's kind: a two-career
/// selection is answered with index zero or one.
pub open spec fn career_input_ok(m: CareerProc, input: Input) -> bool {
    match m.state {
        CareerState::AwaitPick { .. } => match input {
            Input::Answered(a) => match a {
                Answer::Selected(i) => i <= 1,
                _ => true,
            },
            _ => true,
        },
        _ => true,
    }
}

} // verus!
