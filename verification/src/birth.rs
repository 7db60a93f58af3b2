//! The birth-stage procedures: rolling the five core stats with their
//! subskills, the non-interactive birth rolls (magic, luck, stamina,
//! birthplace), the guardians' affiliation, rank and career, and the
//! birth-omen event. Each interactive procedure is a state machine whose
//! steps are given exactly by a spec model; the non-interactive rolls are
//! split into a sampler and a deterministic core with an exact contract.

use crate::backend::{
    spec_log, spec_set_affiliation, spec_set_birth_location, spec_set_career, spec_set_culture,
    spec_set_faith, spec_set_omen, spec_set_rank, spec_set_stat, BackendV, BaseBackend,
};
use crate::careers::{get_affiliation, get_rank, spec_get_affiliation, spec_get_rank, Affiliation, CareerTableStar};
use crate::character::{
    birth_omens, core_stats, spec_birth_omens, spec_core_stats, spec_omen_name, spec_stat_name,
    spec_subskills, BirthOmen, CharacterV, Stat,
};
use crate::dice::{
    dice_sum, pool_least, sample_inclusive, AsPool, DiceRoll, MagicDice, Many, PickHighest,
    PickLowest, Subtract,
};
use crate::event::{
    input_fits, req_wf, AnswerKind, Expect, Input, Outcome, OutcomeV, RollRequest, Rolls,
};
use crate::ipc::{Answer, Choice, ChoiceV, Choosable, Selection};
use crate::lifepath::{
    career_input_ok, career_ready, spec_aff_advance, spec_career_advance, spec_choice_kind,
    AffiliationProc, CareerProc,
};
use crate::locations::{
    get_culture, get_faith, location_table, spec_get_culture, spec_get_faith, spec_location_table,
};
use vstd::prelude::*;
use vstd::string::StringExecFns;

verus! {

/// A stat value read with a default of zero for a stat not yet rolled.
pub open spec fn stat_or_zero(v: Option<i8>) -> int {
    match v {
        Option::Some(x) => x as int,
        Option::None => 0,
    }
}

/// The stats of a list that are still unrolled, in list order.
pub open spec fn spec_unset(c: CharacterV, stats: Seq<Stat>) -> Seq<Stat>
    decreases stats.len(),
{
    if stats.len() == 0 {
        Seq::empty()
    } else {
        let rest = spec_unset(c, stats.drop_last());
        if c.stat(stats.last()) is None {
            rest.push(stats.last())
        } else {
            rest
        }
    }
}

/// How many stats of a list hold fifty or more.
pub open spec fn spec_high_count(c: CharacterV, stats: Seq<Stat>) -> int
    decreases stats.len(),
{
    if stats.len() == 0 {
        0
    } else {
        spec_high_count(c, stats.drop_last()) + (match c.stat(stats.last()) {
            Option::Some(v) => if v >= 50 {
                1int
            } else {
                0int
            },
            Option::None => 0int,
        })
    }
}

/// The stats of a list that the character has not rolled yet.
fn unset_stats(b: &BaseBackend, list: &Vec<Stat>) -> (r: Vec<Stat>)
    requires
        b@.inv(),
    ensures
        r@ == spec_unset(b@.character, list@),
        r@.len() <= list@.len(),
{
    let mut r: Vec<Stat> = Vec::new();
    let mut i: usize = 0;
    while i < list.len()
        invariant
            0 <= i <= list@.len(),
            b@.inv(),
            r@ == spec_unset(b@.character, list@.take(i as int)),
            r@.len() <= i,
        decreases list@.len() - i,
    {
        proof {
            assert(list@.take(i as int + 1).drop_last() =~= list@.take(i as int));
            assert(list@.take(i as int + 1).last() == list@[i as int]);
        }
        match b.get_stat(list[i]) {
            Option::None => {
                r.push(list[i]);
            },
            Option::Some(_) => {},
        }
        i = i + 1;
    }
    proof {
        assert(list@.take(list@.len() as int) =~= list@);
    }
    r
}

/// How many stats of a list hold fifty or more.
fn high_count(b: &BaseBackend, list: &Vec<Stat>) -> (n: usize)
    requires
        b@.inv(),
    ensures
        n as int == spec_high_count(b@.character, list@),
        n <= list@.len(),
{
    let mut n: usize = 0;
    let mut i: usize = 0;
    while i < list.len()
        invariant
            0 <= i <= list@.len(),
            b@.inv(),
            n as int == spec_high_count(b@.character, list@.take(i as int)),
            n <= i,
        decreases list@.len() - i,
    {
        proof {
            assert(list@.take(i as int + 1).drop_last() =~= list@.take(i as int));
            assert(list@.take(i as int + 1).last() == list@[i as int]);
        }
        match b.get_stat(list[i]) {
            Option::Some(v) => {
                if v >= 50 {
                    n = n + 1;
                }
            },
            Option::None => {},
        }
        i = i + 1;
    }
    proof {
        assert(list@.take(list@.len() as int) =~= list@);
    }
    n
}

/// Renders a list of stats as selection options.
fn stat_options(list: &Vec<Stat>) -> (r: Vec<Choosable>)
    ensures
        r@.len() == list@.len(),
        forall|k: int|
            0 <= k < list@.len() ==> #[trigger] r@[k].description@ == spec_stat_name(list@[k]),
{
    let mut r: Vec<Choosable> = Vec::new();
    let mut i: usize = 0;
    while i < list.len()
        invariant
            0 <= i <= list@.len(),
            r@.len() == i,
            forall|k: int|
                0 <= k < i as int ==> #[trigger] r@[k].description@ == spec_stat_name(list@[k]),
        decreases list@.len() - i,
    {
        r.push(Choosable::from(String::from_str(list[i].name())));
        i = i + 1;
    }
    r
}

/// The prompt that offers the next core stat to roll.
pub open spec fn spec_core_prompt(b: BackendV) -> ChoiceV {
    ChoiceV::Selection {
        description: "Pick a core stat to roll next"@,
        options: spec_unset(b.character, spec_core_stats()).map_values(
            |s: Stat| spec_stat_name(s),
        ),
    }
}

/// The prompt that offers the next subskill of a core stat to roll.
pub open spec fn spec_sub_prompt(b: BackendV, core: Stat) -> ChoiceV {
    ChoiceV::Selection {
        description: "pick a sub-skill"@,
        options: spec_unset(b.character, spec_subskills(core)).map_values(
            |s: Stat| spec_stat_name(s),
        ),
    }
}

/// Where the single-stat procedure stands.
#[derive(Copy, Clone, Debug, PartialEq, Eq, Structural)]
pub enum PickStatState {
    Start,
    AwaitCore,
    AwaitStatDice { stat: Stat, count: usize },
    AwaitSub { core: Stat, base: i8, i: u8 },
    AwaitSubDice { core: Stat, base: i8, i: u8, chosen: Stat },
    Done,
}

/// One core stat rolled and its three subskills rolled under it: the
/// player picks the core stat, its pool is rolled picking the lowest die
/// (one more die per prior core stat at fifty or above), and each
/// subskill is the core result lessened by a growing pool of ten-sided
/// dice.
#[derive(Copy, Clone, Debug, PartialEq, Eq, Structural)]
pub struct PickStatProc {
    pub state: PickStatState,
}

/// One step of the single-stat procedure.
pub open spec fn spec_pick_stat_advance(m: PickStatProc, b: BackendV, input: Input) -> (
    PickStatProc,
    BackendV,
    OutcomeV,
) {
    match m.state {
        PickStatState::Start => (
            PickStatProc { state: PickStatState::AwaitCore },
            b,
            OutcomeV::Ask(spec_core_prompt(b)),
        ),
        PickStatState::AwaitCore => match input {
            Input::Answered(a) => match a {
                Answer::Selected(i) => {
                    let stat = spec_unset(b.character, spec_core_stats())[i as int];
                    let count = (2 + spec_high_count(b.character, spec_core_stats())) as usize;
                    (
                        PickStatProc { state: PickStatState::AwaitStatDice { stat, count } },
                        b,
                        OutcomeV::NeedRoll(RollRequest::HundredPool { count }),
                    )
                },
                _ => (m, b, OutcomeV::TableFault),
            },
            _ => (m, b, OutcomeV::TableFault),
        },
        PickStatState::AwaitStatDice { stat, count } => match input {
            Input::Rolled(r) => match r {
                Rolls::Hundred(p) => {
                    let value = pool_least(p.spec_pool()) as i8;
                    let b1 = spec_set_stat(b, stat, value as int);
                    (
                        PickStatProc { state: PickStatState::AwaitSub { core: stat, base: value, i: 0 } },
                        b1,
                        OutcomeV::Ask(spec_sub_prompt(b1, stat)),
                    )
                },
                _ => (m, b, OutcomeV::TableFault),
            },
            _ => (m, b, OutcomeV::TableFault),
        },
        PickStatState::AwaitSub { core, base, i } => match input {
            Input::Answered(a) => match a {
                Answer::Selected(j) => {
                    let chosen = spec_unset(b.character, spec_subskills(core))[j as int];
                    (
                        PickStatProc {
                            state: PickStatState::AwaitSubDice { core, base, i, chosen },
                        },
                        b,
                        OutcomeV::NeedRoll(
                            RollRequest::Pool { count: i as usize, sides: 10 },
                        ),
                    )
                },
                _ => (m, b, OutcomeV::TableFault),
            },
            _ => (m, b, OutcomeV::TableFault),
        },
        PickStatState::AwaitSubDice { core, base, i, chosen } => match input {
            Input::Rolled(r) => match r {
                Rolls::Pool(v) => {
                    let b1 = spec_set_stat(b, chosen, base - dice_sum(v@));
                    if i < 2 {
                        (
                            PickStatProc {
                                state: PickStatState::AwaitSub { core, base, i: (i + 1) as u8 },
                            },
                            b1,
                            OutcomeV::Ask(spec_sub_prompt(b1, core)),
                        )
                    } else {
                        (PickStatProc { state: PickStatState::Done }, b1, OutcomeV::Done)
                    }
                },
                _ => (m, b, OutcomeV::TableFault),
            },
            _ => (m, b, OutcomeV::TableFault),
        },
        PickStatState::Done => (m, b, OutcomeV::TableFault),
    }
}

/// The answer-content demands of the single-stat procedure: a selected
/// index names an offered option.
pub open spec fn pick_stat_input_ok(m: PickStatProc, b: BackendV, input: Input) -> bool {
    match m.state {
        PickStatState::AwaitCore => match input {
            Input::Answered(a) => match a {
                Answer::Selected(i) => i < spec_unset(b.character, spec_core_stats()).len(),
                _ => true,
            },
            _ => true,
        },
        PickStatState::AwaitSub { core, .. } => match input {
            Input::Answered(a) => match a {
                Answer::Selected(j) => j < spec_unset(b.character, spec_subskills(core)).len(),
                _ => true,
            },
            _ => true,
        },
        _ => true,
    }
}

impl PickStatProc {
    pub open spec fn inv(self) -> bool {
        &&& (self.state matches PickStatState::AwaitStatDice { count, .. } ==> 2 <= count <= 7)
        &&& (self.state matches PickStatState::AwaitSub { base, i, .. } ==> 1 <= base <= 100 && i
            <= 2)
        &&& (self.state matches PickStatState::AwaitSubDice { base, i, .. } ==> 1 <= base <= 100
            && i <= 2)
    }

    pub open spec fn expecting(self) -> Expect {
        match self.state {
            PickStatState::Start => Expect::Go,
            PickStatState::AwaitCore => Expect::Answer(AnswerKind::Select),
            PickStatState::AwaitStatDice { count, .. } => Expect::Roll(
                RollRequest::HundredPool { count },
            ),
            PickStatState::AwaitSub { .. } => Expect::Answer(AnswerKind::Select),
            PickStatState::AwaitSubDice { i, .. } => Expect::Roll(
                RollRequest::Pool { count: i as usize, sides: 10 },
            ),
            PickStatState::Done => Expect::Finished,
        }
    }

    pub fn new() -> (m: PickStatProc)
        ensures
            m == (PickStatProc { state: PickStatState::Start }),
            m.inv(),
    {
        PickStatProc { state: PickStatState::Start }
    }

    /// One step of the single-stat procedure, exactly as the model gives
    /// it.
    pub fn advance(&mut self, b: &mut BaseBackend, input: Input) -> (o: Outcome)
        requires
            old(b)@.inv(),
            old(self).inv(),
            input_fits(old(self).expecting(), input),
            pick_stat_input_ok(*old(self), old(b)@, input),
        ensures
            final(b)@.inv(),
            final(self).inv(),
            *final(self) == spec_pick_stat_advance(*old(self), old(b)@, input).0,
            final(b)@ == spec_pick_stat_advance(*old(self), old(b)@, input).1,
            o@ == spec_pick_stat_advance(*old(self), old(b)@, input).2,
            o@ is Working ==> final(self).expecting() is Go,
            o@ matches OutcomeV::NeedRoll(r) ==> final(self).expecting() == Expect::Roll(r)
                && req_wf(r),
            o@ matches OutcomeV::Ask(c) ==> final(self).expecting() == Expect::Answer(
                spec_choice_kind(c),
            ),
            o@ is Done ==> final(self).expecting() is Finished,
            final(b)@.character.birth_location == old(b)@.character.birth_location,
            final(b)@.character.culture == old(b)@.character.culture,
            final(b)@.character.faith == old(b)@.character.faith,
            final(b)@.character.rank == old(b)@.character.rank,
            final(b)@.character.affiliation == old(b)@.character.affiliation,
            final(b)@.character.parents_career == old(b)@.character.parents_career,
    {
        match self.state {
            PickStatState::Start => {
                let cores = core_stats();
                let unset = unset_stats(b, &cores);
                let options = stat_options(&unset);
                let choice = Choice::Selection(
                    Selection {
                        description: String::from_str("Pick a core stat to roll next"),
                        options,
                    },
                );
                proof {
                    assert(choice@ =~= spec_core_prompt(b@));
                }
                self.state = PickStatState::AwaitCore;
                Outcome::Ask(choice)
            },
            PickStatState::AwaitCore => {
                match input {
                    Input::Answered(Answer::Selected(i)) => {
                        let cores = core_stats();
                        let unset = unset_stats(b, &cores);
                        let stat = unset[i];
                        let count = 2 + high_count(b, &cores);
                        self.state = PickStatState::AwaitStatDice { stat, count };
                        Outcome::NeedRoll(RollRequest::HundredPool { count })
                    },
                    _ => {
                        proof {
                            assert(false);
                        }
                        Outcome::TableFault
                    },
                }
            },
            PickStatState::AwaitStatDice { stat, count: _ } => {
                match input {
                    Input::Rolled(Rolls::Hundred(p)) => {
                        proof {
                            p.lemma_pool_in_range();
                            crate::dice::lemma_pool_greatest_bounds(p.spec_pool(), 1, 100);
                        }
                        let roll = PickLowest(p);
                        b.set_stat(stat, &roll);
                        let base = roll.result();
                        let subs = stat.subskills();
                        let unset = unset_stats(b, &subs);
                        let options = stat_options(&unset);
                        let choice = Choice::Selection(
                            Selection {
                                description: String::from_str("pick a sub-skill"),
                                options,
                            },
                        );
                        proof {
                            assert(choice@ =~= spec_sub_prompt(b@, stat));
                        }
                        self.state = PickStatState::AwaitSub { core: stat, base, i: 0 };
                        Outcome::Ask(choice)
                    },
                    _ => {
                        proof {
                            assert(false);
                        }
                        Outcome::TableFault
                    },
                }
            },
            PickStatState::AwaitSub { core, base, i } => {
                match input {
                    Input::Answered(Answer::Selected(j)) => {
                        let subs = core.subskills();
                        let unset = unset_stats(b, &subs);
                        let chosen = unset[j];
                        self.state = PickStatState::AwaitSubDice { core, base, i, chosen };
                        Outcome::NeedRoll(RollRequest::Pool { count: i as usize, sides: 10 })
                    },
                    _ => {
                        proof {
                            assert(false);
                        }
                        Outcome::TableFault
                    },
                }
            },
            PickStatState::AwaitSubDice { core, base, i, chosen } => {
                match input {
                    Input::Rolled(Rolls::Pool(v)) => {
                        let pool = Many { sides: 10, dice: v };
                        let mallus = Subtract(base, pool);
                        proof {
                            mallus.1.lemma_result_in_range();
                        }
                        b.set_stat(chosen, &mallus);
                        if i < 2 {
                            let subs = core.subskills();
                            let unset = unset_stats(b, &subs);
                            let options = stat_options(&unset);
                            let choice = Choice::Selection(
                                Selection {
                                    description: String::from_str("pick a sub-skill"),
                                    options,
                                },
                            );
                            proof {
                                assert(choice@ =~= spec_sub_prompt(b@, core));
                            }
                            self.state = PickStatState::AwaitSub { core, base, i: i + 1 };
                            Outcome::Ask(choice)
                        } else {
                            self.state = PickStatState::Done;
                            Outcome::Done
                        }
                    },
                    _ => {
                        proof {
                            assert(false);
                        }
                        Outcome::TableFault
                    },
                }
            },
            PickStatState::Done => {
                proof {
                    assert(false);
                }
                Outcome::TableFault
            },
        }
    }
}

/// Rolling the five core stats is the single-stat procedure run five
/// times in a row.
#[derive(Copy, Clone, Debug, PartialEq, Eq, Structural)]
pub struct CoreStatsProc {
    pub inner: PickStatProc,
    pub remaining: u8,
}

/// One step of the five-stat chain: the single-stat procedure is stepped,
/// and each time it finishes a fresh one takes its place until all five
/// runs are spent.
pub open spec fn spec_core_stats_advance(m: CoreStatsProc, b: BackendV, input: Input) -> (
    CoreStatsProc,
    BackendV,
    OutcomeV,
) {
    let stepped = spec_pick_stat_advance(m.inner, b, input);
    if stepped.2 is Done {
        if m.remaining > 1 {
            (
                CoreStatsProc {
                    inner: PickStatProc { state: PickStatState::Start },
                    remaining: (m.remaining - 1) as u8,
                },
                stepped.1,
                OutcomeV::Working,
            )
        } else {
            (CoreStatsProc { inner: stepped.0, remaining: m.remaining }, stepped.1, OutcomeV::Done)
        }
    } else {
        (CoreStatsProc { inner: stepped.0, remaining: m.remaining }, stepped.1, stepped.2)
    }
}

impl CoreStatsProc {
    pub open spec fn inv(self) -> bool {
        self.inner.inv()
    }

    pub open spec fn expecting(self) -> Expect {
        self.inner.expecting()
    }

    pub fn new() -> (m: CoreStatsProc)
        ensures
            m == (CoreStatsProc { inner: PickStatProc { state: PickStatState::Start }, remaining: 5u8 }),
            m.inv(),
    {
        CoreStatsProc { inner: PickStatProc::new(), remaining: 5 }
    }

    pub fn advance(&mut self, b: &mut BaseBackend, input: Input) -> (o: Outcome)
        requires
            old(b)@.inv(),
            old(self).inv(),
            input_fits(old(self).expecting(), input),
            pick_stat_input_ok(old(self).inner, old(b)@, input),
        ensures
            final(b)@.inv(),
            final(self).inv(),
            *final(self) == spec_core_stats_advance(*old(self), old(b)@, input).0,
            final(b)@ == spec_core_stats_advance(*old(self), old(b)@, input).1,
            o@ == spec_core_stats_advance(*old(self), old(b)@, input).2,
            o@ is Working ==> final(self).expecting() is Go,
            o@ matches OutcomeV::NeedRoll(r) ==> final(self).expecting() == Expect::Roll(r)
                && req_wf(r),
            o@ matches OutcomeV::Ask(c) ==> final(self).expecting() == Expect::Answer(
                spec_choice_kind(c),
            ),
            o@ is Done ==> final(self).expecting() is Finished,
            final(b)@.character.birth_location == old(b)@.character.birth_location,
            final(b)@.character.culture == old(b)@.character.culture,
            final(b)@.character.faith == old(b)@.character.faith,
            final(b)@.character.rank == old(b)@.character.rank,
            final(b)@.character.affiliation == old(b)@.character.affiliation,
            final(b)@.character.parents_career == old(b)@.character.parents_career,
    {
        let o = self.inner.advance(b, input);
        match o {
            Outcome::Done => {
                if self.remaining > 1 {
                    self.inner = PickStatProc::new();
                    self.remaining = self.remaining - 1;
                    Outcome::Working
                } else {
                    Outcome::Done
                }
            },
            _ => o,
        }
    }
}

/// Where the guardians' affiliation, rank and career procedure stands.
#[derive(Copy, Clone, Debug)]
pub enum ParentsState {
    Start,
    AwaitAffDice { kh: bool },
    AwaitRankDie { affiliation: Affiliation },
    InCareer(CareerProc),
    Done,
}

/// The guardians' story: an affiliation rolled on the birthplace's table
/// (with advantage when the upbringing culture is not the local one, and
/// a forced conversion where the affiliation demands a faith), the rank
/// die under that affiliation, and a career resolved at that rank.
#[derive(Copy, Clone, Debug)]
pub struct ParentsProc {
    pub state: ParentsState,
}

/// What the guardians' procedure needs set before it runs.
pub open spec fn parents_ready(b: BackendV) -> bool {
    &&& b.character.birth_location is Some
    &&& b.character.culture is Some
    &&& b.character.faith is Some
}

/// One step of the guardians' procedure.
pub open spec fn spec_parents_advance(m: ParentsProc, b: BackendV, input: Input) -> (
    ParentsProc,
    BackendV,
    OutcomeV,
) {
    match m.state {
        ParentsState::Start => {
            let loc = b.character.birth_location->Some_0;
            let culture = b.character.culture->Some_0;
            if loc.culture == culture {
                (
                    ParentsProc { state: ParentsState::AwaitAffDice { kh: false } },
                    b,
                    OutcomeV::NeedRoll(RollRequest::Pool { count: 1, sides: 100 }),
                )
            } else {
                (
                    ParentsProc { state: ParentsState::AwaitAffDice { kh: true } },
                    b,
                    OutcomeV::NeedRoll(RollRequest::HundredPool { count: 2 }),
                )
            }
        },
        ParentsState::AwaitAffDice { kh } => {
            let value: i8 = match input {
                Input::Rolled(r) => match r {
                    Rolls::Pool(v) => v@[0],
                    Rolls::Hundred(p) => crate::dice::pool_greatest(p.spec_pool()) as i8,
                    _ => 1,
                },
                _ => 1,
            };
            let loc = b.character.birth_location->Some_0;
            let aff = spec_get_affiliation(loc, value);
            let b1 = match aff.spec_star(loc) {
                CareerTableStar::NeedsFaith(f) => spec_set_faith(b, f),
                _ => b,
            };
            (
                ParentsProc { state: ParentsState::AwaitRankDie { affiliation: aff } },
                b1,
                OutcomeV::NeedRoll(RollRequest::Pool { count: 1, sides: 6 }),
            )
        },
        ParentsState::AwaitRankDie { affiliation } => match input {
            Input::Rolled(r) => match r {
                Rolls::Pool(v) => {
                    let loc = b.character.birth_location->Some_0;
                    let rank = spec_get_rank(loc, affiliation, v@[0]);
                    let b1 = spec_set_rank(b, rank as i8);
                    let b2 = spec_set_affiliation(b1, affiliation);
                    (
                        ParentsProc {
                            state: ParentsState::InCareer(
                                CareerProc {
                                    rank: crate::backend::spec_clamp_rank(rank as i8),
                                    state: crate::lifepath::CareerState::Resolve,
                                },
                            ),
                        },
                        b2,
                        OutcomeV::Working,
                    )
                },
                _ => (m, b, OutcomeV::TableFault),
            },
            _ => (m, b, OutcomeV::TableFault),
        },
        ParentsState::InCareer(cp) => {
            let stepped = spec_career_advance(cp, b, input);
            if stepped.2 is Done {
                (ParentsProc { state: ParentsState::Done }, stepped.1, OutcomeV::Done)
            } else if stepped.2 is TableFault {
                (ParentsProc { state: ParentsState::Done }, stepped.1, OutcomeV::TableFault)
            } else {
                (ParentsProc { state: ParentsState::InCareer(stepped.0) }, stepped.1, stepped.2)
            }
        },
        ParentsState::Done => (m, b, OutcomeV::TableFault),
    }
}

/// The answer-content demands of the guardians' procedure.
pub open spec fn parents_input_ok(m: ParentsProc, input: Input) -> bool {
    match m.state {
        ParentsState::InCareer(cp) => career_input_ok(cp, input),
        _ => true,
    }
}

impl ParentsProc {
    pub open spec fn inv(self, b: BackendV) -> bool {
        &&& (self.state matches ParentsState::InCareer(cp) ==> cp.inv() && career_ready(b))
    }

    pub open spec fn expecting(self) -> Expect {
        match self.state {
            ParentsState::Start => Expect::Go,
            ParentsState::AwaitAffDice { kh } => if kh {
                Expect::Roll(RollRequest::HundredPool { count: 2 })
            } else {
                Expect::Roll(RollRequest::Pool { count: 1, sides: 100 })
            },
            ParentsState::AwaitRankDie { .. } => Expect::Roll(
                RollRequest::Pool { count: 1, sides: 6 },
            ),
            ParentsState::InCareer(cp) => cp.expecting(),
            ParentsState::Done => Expect::Finished,
        }
    }

    pub fn new() -> (m: ParentsProc)
        ensures
            m == (ParentsProc { state: ParentsState::Start }),
    {
        ParentsProc { state: ParentsState::Start }
    }

    pub fn advance(&mut self, b: &mut BaseBackend, input: Input) -> (o: Outcome)
        requires
            old(b)@.inv(),
            parents_ready(old(b)@),
            old(self).inv(old(b)@),
            input_fits(old(self).expecting(), input),
            parents_input_ok(*old(self), input),
        ensures
            final(b)@.inv(),
            parents_ready(final(b)@),
            final(self).inv(final(b)@),
            *final(self) == spec_parents_advance(*old(self), old(b)@, input).0,
            final(b)@ == spec_parents_advance(*old(self), old(b)@, input).1,
            o@ == spec_parents_advance(*old(self), old(b)@, input).2,
            o@ is Working ==> final(self).expecting() is Go,
            o@ matches OutcomeV::NeedRoll(r) ==> final(self).expecting() == Expect::Roll(r)
                && req_wf(r),
            o@ matches OutcomeV::Ask(c) ==> final(self).expecting() == Expect::Answer(
                spec_choice_kind(c),
            ),
            o@ is Done ==> final(self).expecting() is Finished,
    {
        match self.state {
            ParentsState::Start => {
                let loc = b.character.birth_location.unwrap();
                let culture = b.character.culture.unwrap();
                if loc.culture == culture {
                    self.state = ParentsState::AwaitAffDice { kh: false };
                    Outcome::NeedRoll(RollRequest::Pool { count: 1, sides: 100 })
                } else {
                    self.state = ParentsState::AwaitAffDice { kh: true };
                    Outcome::NeedRoll(RollRequest::HundredPool { count: 2 })
                }
            },
            ParentsState::AwaitAffDice { kh } => {
                let value: i8 = match input {
                    Input::Rolled(Rolls::Pool(v)) => v[0],
                    Input::Rolled(Rolls::Hundred(p)) => {
                        proof {
                            p.lemma_pool_in_range();
                            crate::dice::lemma_pool_greatest_bounds(p.spec_pool(), 1, 100);
                        }
                        PickHighest(p).result()
                    },
                    _ => {
                        proof {
                            assert(false);
                        }
                        1
                    },
                };
                let loc = b.character.birth_location.unwrap();
                let aff = get_affiliation(&loc, value);
                match aff.star(&loc) {
                    CareerTableStar::NeedsFaith(f) => {
                        b.set_faith(f);
                    },
                    _ => {},
                }
                self.state = ParentsState::AwaitRankDie { affiliation: aff };
                Outcome::NeedRoll(RollRequest::Pool { count: 1, sides: 6 })
            },
            ParentsState::AwaitRankDie { affiliation } => {
                match input {
                    Input::Rolled(Rolls::Pool(v)) => {
                        let loc = b.character.birth_location.unwrap();
                        let rank = get_rank(&loc, affiliation, v[0]);
                        b.set_rank(rank);
                        b.set_affiliation(affiliation);
                        self.state = ParentsState::InCareer(CareerProc::new(rank));
                        Outcome::Working
                    },
                    _ => {
                        proof {
                            assert(false);
                        }
                        Outcome::TableFault
                    },
                }
            },
            ParentsState::InCareer(cp) => {
                let mut inner = cp;
                let o = inner.advance(b, input);
                match o {
                    Outcome::Done => {
                        self.state = ParentsState::Done;
                        Outcome::Done
                    },
                    Outcome::TableFault => {
                        self.state = ParentsState::Done;
                        Outcome::TableFault
                    },
                    _ => {
                        self.state = ParentsState::InCareer(inner);
                        o
                    },
                }
            },
            ParentsState::Done => {
                proof {
                    assert(false);
                }
                Outcome::TableFault
            },
        }
    }
}

/// Whether a stat is one of the five core stats.
pub open spec fn spec_is_core(s: Stat) -> bool {
    match s {
        Stat::Arms | Stat::Face | Stat::Hands | Stat::Legs | Stat::Mind => true,
        _ => false,
    }
}

/// A list of stats with one stat left out.
pub open spec fn spec_without(stats: Seq<Stat>, skip: Stat) -> Seq<Stat>
    decreases stats.len(),
{
    if stats.len() == 0 {
        Seq::empty()
    } else {
        let rest = spec_without(stats.drop_last(), skip);
        if stats.last() == skip {
            rest
        } else {
            rest.push(stats.last())
        }
    }
}

fn stats_without(list: &Vec<Stat>, skip: Stat) -> (r: Vec<Stat>)
    ensures
        r@ == spec_without(list@, skip),
        r@.len() <= list@.len(),
{
    let mut r: Vec<Stat> = Vec::new();
    let mut i: usize = 0;
    while i < list.len()
        invariant
            0 <= i <= list@.len(),
            r@ == spec_without(list@.take(i as int), skip),
            r@.len() <= i,
        decreases list@.len() - i,
    {
        proof {
            assert(list@.take(i as int + 1).drop_last() =~= list@.take(i as int));
            assert(list@.take(i as int + 1).last() == list@[i as int]);
        }
        if !(list[i] == skip) {
            r.push(list[i]);
        }
        i = i + 1;
    }
    proof {
        assert(list@.take(list@.len() as int) =~= list@);
    }
    r
}

fn omen_options() -> (r: Vec<Choosable>)
    ensures
        r@.len() == spec_birth_omens().len(),
        forall|k: int|
            0 <= k < spec_birth_omens().len() ==> #[trigger] r@[k].description@ == spec_omen_name(
                spec_birth_omens()[k],
            ),
{
    let omens = birth_omens();
    let mut r: Vec<Choosable> = Vec::new();
    let mut i: usize = 0;
    while i < omens.len()
        invariant
            0 <= i <= omens@.len(),
            omens@ == spec_birth_omens(),
            r@.len() == i,
            forall|k: int|
                0 <= k < i as int ==> #[trigger] r@[k].description@ == spec_omen_name(
                    spec_birth_omens()[k],
                ),
        decreases omens@.len() - i,
    {
        r.push(Choosable::from(omens[i].describe()));
        i = i + 1;
    }
    r
}

/// Swapping two stats' values, an unrolled stat counting as zero (and so
/// stored as the floor of one, as every written stat is).
pub open spec fn spec_swap_pair(b: BackendV, sa: Stat, sb: Stat) -> BackendV {
    let va = stat_or_zero(b.character.stat(sa));
    let vb = stat_or_zero(b.character.stat(sb));
    spec_set_stat(spec_set_stat(b, sa, vb), sb, va)
}

fn swap_pair(b: &mut BaseBackend, sa: Stat, sb: Stat)
    requires
        old(b)@.inv(),
    ensures
        final(b)@.inv(),
        final(b)@ == spec_swap_pair(old(b)@, sa, sb),
{
    let va: i8 = match b.get_stat(sa) {
        Option::Some(x) => x,
        Option::None => 0,
    };
    let vb: i8 = match b.get_stat(sb) {
        Option::Some(x) => x,
        Option::None => 0,
    };
    b.set_stat(sa, &vb);
    b.set_stat(sb, &va);
}

/// The prompt of the practically-minded omen's two stat picks.
pub open spec fn spec_swap_prompt(options: Seq<Stat>) -> ChoiceV {
    ChoiceV::Selection {
        description:
            "Pick any two primary skills, and swap their values and those of each of their secondaries"@,
        options: options.map_values(|s: Stat| spec_stat_name(s)),
    }
}

/// The prompt that offers the five birth omens.
pub open spec fn spec_omen_prompt() -> ChoiceV {
    ChoiceV::Selection {
        description: "Pick your birth omen"@,
        options: spec_birth_omens().map_values(|o: BirthOmen| spec_omen_name(o)),
    }
}

/// Where the birth-omen event stands.
#[derive(Copy, Clone, Debug)]
pub enum OmensState {
    Start,
    AwaitOmen,
    ProsStamina,
    PmFirst,
    PmSecond { first: Stat },
    StarLuck,
    DoomMagic,
    DoomRank,
    InAffiliation(AffiliationProc),
    InCareer(CareerProc),
    Done,
}

/// The birth-omen event: one omen picked from five, its immediate effects
/// applied (stat rerolls, swaps, rank losses, affiliation rerolls), and a
/// career resolved at the refreshed rank — except under the prosperous
/// constellations, which hand down the guardians' own career outright.
#[derive(Copy, Clone, Debug)]
pub struct OmensProc {
    pub state: OmensState,
}

/// What the omen event needs set before it runs: everything career
/// resolution reads, and the guardians' career for the prosperous
/// constellations to hand down.
pub open spec fn omens_ready(b: BackendV) -> bool {
    &&& career_ready(b)
    &&& b.character.parents_career is Some
}

/// Picking the omen at index `i` and applying its immediate branch.
pub open spec fn spec_omen_selected(b: BackendV, i: usize) -> (OmensProc, BackendV, OutcomeV) {
    let omen = spec_birth_omens()[i as int];
    let b1 = spec_set_omen(b, omen);
    match omen {
        BirthOmen::ProsperousConstellations => (
            OmensProc { state: OmensState::ProsStamina },
            b1,
            OutcomeV::NeedRoll(RollRequest::Pool { count: 2, sides: 6 }),
        ),
        BirthOmen::PropheticSigns(_) => (
            OmensProc {
                state: OmensState::InAffiliation(
                    AffiliationProc { disadvantage: 0, state: crate::lifepath::AffState::Start },
                ),
            },
            b1,
            OutcomeV::Working,
        ),
        BirthOmen::PracticallyMinded => (
            OmensProc { state: OmensState::PmFirst },
            b1,
            OutcomeV::Ask(spec_swap_prompt(spec_core_stats())),
        ),
        BirthOmen::ShootingStar => (
            OmensProc { state: OmensState::StarLuck },
            b1,
            OutcomeV::NeedRoll(RollRequest::Pool { count: 1, sides: 100 }),
        ),
        BirthOmen::PortentsOfDoom => (
            OmensProc { state: OmensState::DoomMagic },
            b1,
            OutcomeV::NeedRoll(RollRequest::Magic),
        ),
    }
}

/// The prosperous constellations: stamina rerolled keeping the higher
/// value, and the guardians' own career handed down, ending the event.
pub open spec fn spec_pros_stamina(b: BackendV, v: Seq<i8>) -> (OmensProc, BackendV, OutcomeV) {
    let sum = v[0] + v[1];
    let cur = stat_or_zero(b.character.stat(Stat::Stamina));
    let value = if sum >= cur {
        sum as int
    } else {
        cur
    };
    let b1 = spec_set_stat(b, Stat::Stamina, value);
    let b2 = spec_set_career(b1, b1.character.parents_career->Some_0);
    (OmensProc { state: OmensState::Done }, b2, OutcomeV::Done)
}

/// The first of the two practically-minded picks.
pub open spec fn spec_pm_first(b: BackendV, i: usize) -> (OmensProc, BackendV, OutcomeV) {
    let first = spec_core_stats()[i as int];
    (
        OmensProc { state: OmensState::PmSecond { first } },
        b,
        OutcomeV::Ask(spec_swap_prompt(spec_without(spec_core_stats(), first))),
    )
}

/// The second practically-minded pick: the two core stats and their
/// subskills swap pairwise, and the rank drops by one to a floor of zero.
pub open spec fn spec_pm_second(b: BackendV, first: Stat, j: usize) -> (
    OmensProc,
    BackendV,
    OutcomeV,
) {
    let second = spec_without(spec_core_stats(), first)[j as int];
    let b1 = spec_swap_pair(b, first, second);
    let b2 = spec_swap_pair(b1, spec_subskills(first)[0], spec_subskills(second)[0]);
    let b3 = spec_swap_pair(b2, spec_subskills(first)[1], spec_subskills(second)[1]);
    let b4 = spec_swap_pair(b3, spec_subskills(first)[2], spec_subskills(second)[2]);
    let rank = b4.character.rank->Some_0;
    let lowered: i8 = if rank >= 1 {
        (rank - 1) as i8
    } else {
        0
    };
    let b5 = spec_set_rank(b4, lowered);
    (
        OmensProc {
            state: OmensState::InCareer(
                CareerProc {
                    rank: b5.character.rank->Some_0,
                    state: crate::lifepath::CareerState::Resolve,
                },
            ),
        },
        b5,
        OutcomeV::Working,
    )
}

/// The shooting star: luck rerolled, one rank lost, and the affiliation
/// rerolled.
pub open spec fn spec_star_luck(b: BackendV, v: Seq<i8>) -> (OmensProc, BackendV, OutcomeV) {
    let b1 = spec_set_stat(b, Stat::Luck, v[0] as int);
    let rank = b1.character.rank->Some_0;
    let lowered: i8 = if rank >= 1 {
        (rank - 1) as i8
    } else {
        0
    };
    let b2 = spec_set_rank(b1, lowered);
    (
        OmensProc {
            state: OmensState::InAffiliation(
                AffiliationProc { disadvantage: 0, state: crate::lifepath::AffState::Start },
            ),
        },
        b2,
        OutcomeV::Working,
    )
}

/// The portents of doom, first half: magic rerolled keeping the higher
/// value.
pub open spec fn spec_doom_magic(b: BackendV, roll: MagicDice) -> (OmensProc, BackendV, OutcomeV) {
    let cur = stat_or_zero(b.character.stat(Stat::Magic));
    let res = roll.spec_result();
    let value = if cur >= res {
        cur
    } else {
        res
    };
    let b1 = spec_set_stat(b, Stat::Magic, value);
    (
        OmensProc { state: OmensState::DoomRank },
        b1,
        OutcomeV::NeedRoll(RollRequest::Pool { count: 1, sides: 3 }),
    )
}

/// The portents of doom, second half: one to three ranks lost and the
/// affiliation rerolled with disadvantage.
pub open spec fn spec_doom_rank(b: BackendV, v: Seq<i8>) -> (OmensProc, BackendV, OutcomeV) {
    let rank = b.character.rank->Some_0;
    let lowered: i8 = if rank - v[0] >= 0 {
        (rank - v[0]) as i8
    } else {
        0
    };
    let b1 = spec_set_rank(b, lowered);
    (
        OmensProc {
            state: OmensState::InAffiliation(
                AffiliationProc { disadvantage: 1, state: crate::lifepath::AffState::Start },
            ),
        },
        b1,
        OutcomeV::Working,
    )
}

/// One step of the birth-omen event.
pub open spec fn spec_omens_advance(m: OmensProc, b: BackendV, input: Input) -> (
    OmensProc,
    BackendV,
    OutcomeV,
) {
    match m.state {
        OmensState::Start => (
            OmensProc { state: OmensState::AwaitOmen },
            b,
            OutcomeV::Ask(spec_omen_prompt()),
        ),
        OmensState::AwaitOmen => match input {
            Input::Answered(a) => match a {
                Answer::Selected(i) => spec_omen_selected(b, i),
                _ => (m, b, OutcomeV::TableFault),
            },
            _ => (m, b, OutcomeV::TableFault),
        },
        OmensState::ProsStamina => match input {
            Input::Rolled(r) => match r {
                Rolls::Pool(v) => spec_pros_stamina(b, v@),
                _ => (m, b, OutcomeV::TableFault),
            },
            _ => (m, b, OutcomeV::TableFault),
        },
        OmensState::PmFirst => match input {
            Input::Answered(a) => match a {
                Answer::Selected(i) => spec_pm_first(b, i),
                _ => (m, b, OutcomeV::TableFault),
            },
            _ => (m, b, OutcomeV::TableFault),
        },
        OmensState::PmSecond { first } => match input {
            Input::Answered(a) => match a {
                Answer::Selected(j) => spec_pm_second(b, first, j),
                _ => (m, b, OutcomeV::TableFault),
            },
            _ => (m, b, OutcomeV::TableFault),
        },
        OmensState::StarLuck => match input {
            Input::Rolled(r) => match r {
                Rolls::Pool(v) => spec_star_luck(b, v@),
                _ => (m, b, OutcomeV::TableFault),
            },
            _ => (m, b, OutcomeV::TableFault),
        },
        OmensState::DoomMagic => match input {
            Input::Rolled(r) => match r {
                Rolls::Magic(roll) => spec_doom_magic(b, roll),
                _ => (m, b, OutcomeV::TableFault),
            },
            _ => (m, b, OutcomeV::TableFault),
        },
        OmensState::DoomRank => match input {
            Input::Rolled(r) => match r {
                Rolls::Pool(v) => spec_doom_rank(b, v@),
                _ => (m, b, OutcomeV::TableFault),
            },
            _ => (m, b, OutcomeV::TableFault),
        },
        OmensState::InAffiliation(ap) => {
            let stepped = spec_aff_advance(ap, b, input);
            if stepped.2 is Done {
                (
                    OmensProc {
                        state: OmensState::InCareer(
                            CareerProc {
                                rank: stepped.1.character.rank->Some_0,
                                state: crate::lifepath::CareerState::Resolve,
                            },
                        ),
                    },
                    stepped.1,
                    OutcomeV::Working,
                )
            } else if stepped.2 is TableFault {
                (OmensProc { state: OmensState::Done }, stepped.1, OutcomeV::TableFault)
            } else {
                (OmensProc { state: OmensState::InAffiliation(stepped.0) }, stepped.1, stepped.2)
            }
        },
        OmensState::InCareer(cp) => {
            let stepped = spec_career_advance(cp, b, input);
            if stepped.2 is Done {
                (OmensProc { state: OmensState::Done }, stepped.1, OutcomeV::Done)
            } else if stepped.2 is TableFault {
                (OmensProc { state: OmensState::Done }, stepped.1, OutcomeV::TableFault)
            } else {
                (OmensProc { state: OmensState::InCareer(stepped.0) }, stepped.1, stepped.2)
            }
        },
        OmensState::Done => (m, b, OutcomeV::TableFault),
    }
}

/// The answer-content demands of the omen event.
pub open spec fn omens_input_ok(m: OmensProc, input: Input) -> bool {
    match m.state {
        OmensState::AwaitOmen => match input {
            Input::Answered(a) => match a {
                Answer::Selected(i) => i < spec_birth_omens().len(),
                _ => true,
            },
            _ => true,
        },
        OmensState::PmFirst => match input {
            Input::Answered(a) => match a {
                Answer::Selected(i) => i < spec_core_stats().len(),
                _ => true,
            },
            _ => true,
        },
        OmensState::PmSecond { first } => match input {
            Input::Answered(a) => match a {
                Answer::Selected(j) => j < spec_without(spec_core_stats(), first).len(),
                _ => true,
            },
            _ => true,
        },
        OmensState::InCareer(cp) => career_input_ok(cp, input),
        _ => true,
    }
}

/// Every stat left after dropping one from a list of core stats is still
/// a core stat.
proof fn lemma_without_keeps_core(stats: Seq<Stat>, skip: Stat)
    requires
        forall|i: int| 0 <= i < stats.len() ==> spec_is_core(#[trigger] stats[i]),
    ensures
        forall|k: int|
            0 <= k < spec_without(stats, skip).len() ==> spec_is_core(
                #[trigger] spec_without(stats, skip)[k],
            ),
    decreases stats.len(),
{
    if stats.len() > 0 {
        assert forall|i: int| 0 <= i < stats.drop_last().len() implies spec_is_core(
            #[trigger] stats.drop_last()[i],
        ) by {
            assert(stats.drop_last()[i] == stats[i]);
        }
        lemma_without_keeps_core(stats.drop_last(), skip);
        assert(spec_is_core(stats[stats.len() - 1]));
        let rest = spec_without(stats.drop_last(), skip);
        assert forall|k: int| 0 <= k < spec_without(stats, skip).len() implies spec_is_core(
            #[trigger] spec_without(stats, skip)[k],
        ) by {
            if stats.last() != skip && k == rest.len() {
                assert(spec_without(stats, skip)[k] == stats.last());
            }
        }
    }
}

proof fn lemma_core_stats_are_core()
    ensures
        forall|i: int| 0 <= i < spec_core_stats().len() ==> spec_is_core(
            #[trigger] spec_core_stats()[i],
        ),
{
    assert forall|i: int| 0 <= i < spec_core_stats().len() implies spec_is_core(
        #[trigger] spec_core_stats()[i],
    ) by {
        if i == 0 {
            assert(spec_core_stats()[0] == Stat::Arms);
        } else if i == 1 {
            assert(spec_core_stats()[1] == Stat::Face);
        } else if i == 2 {
            assert(spec_core_stats()[2] == Stat::Hands);
        } else if i == 3 {
            assert(spec_core_stats()[3] == Stat::Legs);
        } else {
            assert(spec_core_stats()[4] == Stat::Mind);
        }
    }
}

impl OmensProc {
    pub open spec fn inv(self) -> bool {
        &&& (self.state matches OmensState::PmSecond { first } ==> spec_is_core(first))
        &&& (self.state matches OmensState::InAffiliation(ap) ==> ap.inv())
        &&& (self.state matches OmensState::InCareer(cp) ==> cp.inv())
    }

    pub open spec fn expecting(self) -> Expect {
        match self.state {
            OmensState::Start => Expect::Go,
            OmensState::AwaitOmen => Expect::Answer(AnswerKind::Select),
            OmensState::ProsStamina => Expect::Roll(RollRequest::Pool { count: 2, sides: 6 }),
            OmensState::PmFirst => Expect::Answer(AnswerKind::Select),
            OmensState::PmSecond { .. } => Expect::Answer(AnswerKind::Select),
            OmensState::StarLuck => Expect::Roll(RollRequest::Pool { count: 1, sides: 100 }),
            OmensState::DoomMagic => Expect::Roll(RollRequest::Magic),
            OmensState::DoomRank => Expect::Roll(RollRequest::Pool { count: 1, sides: 3 }),
            OmensState::InAffiliation(ap) => ap.expecting(),
            OmensState::InCareer(cp) => cp.expecting(),
            OmensState::Done => Expect::Finished,
        }
    }

    pub fn new() -> (m: OmensProc)
        ensures
            m == (OmensProc { state: OmensState::Start }),
            m.inv(),
    {
        OmensProc { state: OmensState::Start }
    }

    fn omen_selected(&mut self, b: &mut BaseBackend, i: usize) -> (o: Outcome)
        requires
            old(b)@.inv(),
            omens_ready(old(b)@),
            i < 5,
        ensures
            final(b)@.inv(),
            omens_ready(final(b)@),
            *final(self) == spec_omen_selected(old(b)@, i).0,
            final(b)@ == spec_omen_selected(old(b)@, i).1,
            o@ == spec_omen_selected(old(b)@, i).2,
            final(self).inv(),
    {
        let omens = birth_omens();
        let omen = omens[i];
        b.set_omen(omen);
        match omen {
            BirthOmen::ProsperousConstellations => {
                self.state = OmensState::ProsStamina;
                Outcome::NeedRoll(RollRequest::Pool { count: 2, sides: 6 })
            },
            BirthOmen::PropheticSigns(_) => {
                self.state = OmensState::InAffiliation(AffiliationProc::new(0));
                Outcome::Working
            },
            BirthOmen::PracticallyMinded => {
                let cores = core_stats();
                let options = stat_options(&cores);
                let choice = Choice::Selection(
                    Selection {
                        description: String::from_str(
                            "Pick any two primary skills, and swap their values and those of each of their secondaries",
                        ),
                        options,
                    },
                );
                proof {
                    assert(choice@ =~= spec_swap_prompt(spec_core_stats()));
                }
                self.state = OmensState::PmFirst;
                Outcome::Ask(choice)
            },
            BirthOmen::ShootingStar => {
                self.state = OmensState::StarLuck;
                Outcome::NeedRoll(RollRequest::Pool { count: 1, sides: 100 })
            },
            BirthOmen::PortentsOfDoom => {
                self.state = OmensState::DoomMagic;
                Outcome::NeedRoll(RollRequest::Magic)
            },
        }
    }

    fn pros_stamina(&mut self, b: &mut BaseBackend, v: &Vec<i8>) -> (o: Outcome)
        requires
            old(b)@.inv(),
            omens_ready(old(b)@),
            v@.len() == 2,
            forall|k: int| 0 <= k < v@.len() ==> 1 <= #[trigger] v@[k] <= 6,
        ensures
            final(b)@.inv(),
            omens_ready(final(b)@),
            *final(self) == spec_pros_stamina(old(b)@, v@).0,
            final(b)@ == spec_pros_stamina(old(b)@, v@).1,
            o@ == spec_pros_stamina(old(b)@, v@).2,
            final(self).inv(),
    {
        let sum = v[0] + v[1];
        let cur: i8 = match b.get_stat(Stat::Stamina) {
            Option::Some(x) => x,
            Option::None => 0,
        };
        let value = if sum >= cur {
            sum
        } else {
            cur
        };
        b.set_stat(Stat::Stamina, &value);
        let parents = b.character.parents_career.unwrap();
        b.set_career(parents);
        self.state = OmensState::Done;
        Outcome::Done
    }

    fn pm_first(&mut self, b: &BaseBackend, i: usize) -> (o: Outcome)
        requires
            i < 5,
        ensures
            *final(self) == spec_pm_first(b@, i).0,
            o@ == spec_pm_first(b@, i).2,
            final(self).inv(),
    {
        let cores = core_stats();
        let first = cores[i];
        proof {
            lemma_core_stats_are_core();
        }
        let remaining = stats_without(&cores, first);
        let options = stat_options(&remaining);
        let choice = Choice::Selection(
            Selection {
                description: String::from_str(
                    "Pick any two primary skills, and swap their values and those of each of their secondaries",
                ),
                options,
            },
        );
        proof {
            assert(choice@ =~= spec_swap_prompt(spec_without(spec_core_stats(), first)));
        }
        self.state = OmensState::PmSecond { first };
        Outcome::Ask(choice)
    }

    fn pm_second(&mut self, b: &mut BaseBackend, first: Stat, j: usize) -> (o: Outcome)
        requires
            old(b)@.inv(),
            omens_ready(old(b)@),
            spec_is_core(first),
            j < spec_without(spec_core_stats(), first).len(),
        ensures
            final(b)@.inv(),
            omens_ready(final(b)@),
            *final(self) == spec_pm_second(old(b)@, first, j).0,
            final(b)@ == spec_pm_second(old(b)@, first, j).1,
            o@ == spec_pm_second(old(b)@, first, j).2,
            final(self).inv(),
    {
        let cores = core_stats();
        let remaining = stats_without(&cores, first);
        let second = remaining[j];
        proof {
            lemma_core_stats_are_core();
            lemma_without_keeps_core(spec_core_stats(), first);
            assert(spec_is_core(second));
            assert(spec_subskills(first).len() == 3);
            assert(spec_subskills(second).len() == 3);
        }
        swap_pair(b, first, second);
        let subs1 = first.subskills();
        let subs2 = second.subskills();
        swap_pair(b, subs1[0], subs2[0]);
        swap_pair(b, subs1[1], subs2[1]);
        swap_pair(b, subs1[2], subs2[2]);
        let rank = b.character.rank.unwrap();
        let lowered: i8 = if rank >= 1 {
            rank - 1
        } else {
            0
        };
        b.set_rank(lowered);
        self.state = OmensState::InCareer(CareerProc::new(b.character.rank.unwrap()));
        Outcome::Working
    }

    fn star_luck(&mut self, b: &mut BaseBackend, v: &Vec<i8>) -> (o: Outcome)
        requires
            old(b)@.inv(),
            omens_ready(old(b)@),
            v@.len() == 1,
            forall|k: int| 0 <= k < v@.len() ==> 1 <= #[trigger] v@[k] <= 100,
        ensures
            final(b)@.inv(),
            omens_ready(final(b)@),
            *final(self) == spec_star_luck(old(b)@, v@).0,
            final(b)@ == spec_star_luck(old(b)@, v@).1,
            o@ == spec_star_luck(old(b)@, v@).2,
            final(self).inv(),
    {
        b.set_stat(Stat::Luck, &v[0]);
        let rank = b.character.rank.unwrap();
        let lowered: i8 = if rank >= 1 {
            rank - 1
        } else {
            0
        };
        b.set_rank(lowered);
        self.state = OmensState::InAffiliation(AffiliationProc::new(0));
        Outcome::Working
    }

    fn doom_magic(&mut self, b: &mut BaseBackend, roll: &MagicDice) -> (o: Outcome)
        requires
            old(b)@.inv(),
            omens_ready(old(b)@),
            roll.valid(),
        ensures
            final(b)@.inv(),
            omens_ready(final(b)@),
            *final(self) == spec_doom_magic(old(b)@, *roll).0,
            final(b)@ == spec_doom_magic(old(b)@, *roll).1,
            o@ == spec_doom_magic(old(b)@, *roll).2,
            final(self).inv(),
    {
        let cur: i8 = match b.get_stat(Stat::Magic) {
            Option::Some(x) => x,
            Option::None => 0,
        };
        let res = roll.result();
        let value = if cur >= res {
            cur
        } else {
            res
        };
        b.set_stat(Stat::Magic, &value);
        self.state = OmensState::DoomRank;
        Outcome::NeedRoll(RollRequest::Pool { count: 1, sides: 3 })
    }

    fn doom_rank(&mut self, b: &mut BaseBackend, v: &Vec<i8>) -> (o: Outcome)
        requires
            old(b)@.inv(),
            omens_ready(old(b)@),
            v@.len() == 1,
            forall|k: int| 0 <= k < v@.len() ==> 1 <= #[trigger] v@[k] <= 3,
        ensures
            final(b)@.inv(),
            omens_ready(final(b)@),
            *final(self) == spec_doom_rank(old(b)@, v@).0,
            final(b)@ == spec_doom_rank(old(b)@, v@).1,
            o@ == spec_doom_rank(old(b)@, v@).2,
            final(self).inv(),
    {
        let rank = b.character.rank.unwrap();
        let lowered: i8 = if rank - v[0] >= 0 {
            rank - v[0]
        } else {
            0
        };
        b.set_rank(lowered);
        self.state = OmensState::InAffiliation(AffiliationProc::new(1));
        Outcome::Working
    }

    pub fn advance(&mut self, b: &mut BaseBackend, input: Input) -> (o: Outcome)
        requires
            old(b)@.inv(),
            omens_ready(old(b)@),
            old(self).inv(),
            input_fits(old(self).expecting(), input),
            omens_input_ok(*old(self), input),
        ensures
            final(b)@.inv(),
            omens_ready(final(b)@),
            final(self).inv(),
            *final(self) == spec_omens_advance(*old(self), old(b)@, input).0,
            final(b)@ == spec_omens_advance(*old(self), old(b)@, input).1,
            o@ == spec_omens_advance(*old(self), old(b)@, input).2,
            o@ is Working ==> final(self).expecting() is Go,
            o@ matches OutcomeV::NeedRoll(r) ==> final(self).expecting() == Expect::Roll(r)
                && req_wf(r),
            o@ matches OutcomeV::Ask(c) ==> final(self).expecting() == Expect::Answer(
                spec_choice_kind(c),
            ),
            o@ is Done ==> final(self).expecting() is Finished,
    {
        match self.state {
            OmensState::Start => {
                let options = omen_options();
                let choice = Choice::Selection(
                    Selection { description: String::from_str("Pick your birth omen"), options },
                );
                proof {
                    assert(choice@ =~= spec_omen_prompt());
                }
                self.state = OmensState::AwaitOmen;
                Outcome::Ask(choice)
            },
            OmensState::AwaitOmen => {
                match input {
                    Input::Answered(Answer::Selected(i)) => self.omen_selected(b, i),
                    _ => {
                        proof {
                            assert(false);
                        }
                        Outcome::TableFault
                    },
                }
            },
            OmensState::ProsStamina => {
                match input {
                    Input::Rolled(Rolls::Pool(v)) => self.pros_stamina(b, &v),
                    _ => {
                        proof {
                            assert(false);
                        }
                        Outcome::TableFault
                    },
                }
            },
            OmensState::PmFirst => {
                match input {
                    Input::Answered(Answer::Selected(i)) => self.pm_first(b, i),
                    _ => {
                        proof {
                            assert(false);
                        }
                        Outcome::TableFault
                    },
                }
            },
            OmensState::PmSecond { first } => {
                match input {
                    Input::Answered(Answer::Selected(j)) => self.pm_second(b, first, j),
                    _ => {
                        proof {
                            assert(false);
                        }
                        Outcome::TableFault
                    },
                }
            },
            OmensState::StarLuck => {
                match input {
                    Input::Rolled(Rolls::Pool(v)) => self.star_luck(b, &v),
                    _ => {
                        proof {
                            assert(false);
                        }
                        Outcome::TableFault
                    },
                }
            },
            OmensState::DoomMagic => {
                match input {
                    Input::Rolled(Rolls::Magic(roll)) => self.doom_magic(b, &roll),
                    _ => {
                        proof {
                            assert(false);
                        }
                        Outcome::TableFault
                    },
                }
            },
            OmensState::DoomRank => {
                match input {
                    Input::Rolled(Rolls::Pool(v)) => self.doom_rank(b, &v),
                    _ => {
                        proof {
                            assert(false);
                        }
                        Outcome::TableFault
                    },
                }
            },
            OmensState::InAffiliation(ap) => {
                let mut inner = ap;
                let o = inner.advance(b, input);
                match o {
                    Outcome::Done => {
                        self.state = OmensState::InCareer(
                            CareerProc::new(b.character.rank.unwrap()),
                        );
                        Outcome::Working
                    },
                    Outcome::TableFault => {
                        self.state = OmensState::Done;
                        Outcome::TableFault
                    },
                    _ => {
                        self.state = OmensState::InAffiliation(inner);
                        o
                    },
                }
            },
            OmensState::InCareer(cp) => {
                let mut inner = cp;
                let o = inner.advance(b, input);
                match o {
                    Outcome::Done => {
                        self.state = OmensState::Done;
                        Outcome::Done
                    },
                    Outcome::TableFault => {
                        self.state = OmensState::Done;
                        Outcome::TableFault
                    },
                    _ => {
                        self.state = OmensState::InCareer(inner);
                        o
                    },
                }
            },
            OmensState::Done => {
                proof {
                    assert(false);
                }
                Outcome::TableFault
            },
        }
    }
}

/// Applying a rolled magic-dice expression: a total at or past one
/// hundred is death during creation — reported as a narration line, not
/// an error — and the total is stored as the magic stat either way.
pub open spec fn spec_apply_magic(b: BackendV, roll: MagicDice) -> BackendV {
    let b1 = if roll.spec_result() >= 100 {
        spec_log(b, "You died during character creation!"@)
    } else {
        b
    };
    spec_set_stat(b1, Stat::Magic, roll.spec_result())
}

/// Stores a rolled magic-dice expression as the magic stat, narrating
/// death on a total at or past one hundred.
pub fn apply_magic_roll(b: &mut BaseBackend, roll: &MagicDice)
    requires
        old(b)@.inv(),
        roll.valid(),
    ensures
        final(b)@.inv(),
        final(b)@ == spec_apply_magic(old(b)@, *roll),
{
    let result = roll.result();
    if result >= 100 {
        b.log(String::from_str("You died during character creation!"));
    }
    b.set_stat(Stat::Magic, &result);
}

/// Rolls the magic stat: magic dice, applied as `spec_apply_magic` says.
pub fn roll_magic(b: &mut BaseBackend)
    requires
        old(b)@.inv(),
    ensures
        final(b)@.inv(),
        exists|roll: MagicDice|
            roll.valid() && final(b)@ == #[trigger] spec_apply_magic(old(b)@, roll),
{
    let roll = MagicDice::roll();
    apply_magic_roll(b, &roll);
    proof {
        assert(roll.valid() && b@ == spec_apply_magic(old(b)@, roll));
    }
}

/// Rolls the luck stat: one hundred-sided die.
pub fn roll_luck(b: &mut BaseBackend)
    requires
        old(b)@.inv(),
    ensures
        final(b)@.inv(),
        exists|v: i8| 1 <= v <= 100 && final(b)@ == #[trigger] spec_set_stat(old(b)@, Stat::Luck, v as int),
{
    let d = crate::dice::d100();
    b.set_stat(Stat::Luck, &d);
    proof {
        assert(1 <= d.value <= 100 && b@ == spec_set_stat(old(b)@, Stat::Luck, d.value as int));
    }
}

/// Rolls the stamina stat: two six-sided dice summed.
pub fn roll_stamina(b: &mut BaseBackend)
    requires
        old(b)@.inv(),
    ensures
        final(b)@.inv(),
        exists|v: int| 2 <= v <= 12 && final(b)@ == #[trigger] spec_set_stat(old(b)@, Stat::Stamina, v),
{
    let pool = Many::roll(2, 6);
    b.set_stat(Stat::Stamina, &pool);
    proof {
        pool.lemma_result_in_range();
        assert(2 <= pool.spec_result() <= 12 && b@ == spec_set_stat(
            old(b)@,
            Stat::Stamina,
            pool.spec_result(),
        ));
    }
}

/// The birthplace, upbringing culture and upbringing faith that a fixed
/// handful of dice gives: the location table keyed by three six-sided
/// dice and one three-sided die, then the culture and faith lookups (the
/// far-afield homelands fix both). The culture is narrated first, the
/// faith second, the birthplace last, exactly as the record fills in.
pub open spec fn spec_birth_from_dice(
    b: BackendV,
    d6s: (i8, i8, i8),
    d3: i8,
    culture_dice: (i8, i8, i8, i8),
    faith_dice: (i8, i8),
) -> BackendV {
    let loc = spec_location_table(d6s, d3);
    if loc.far_afield {
        spec_set_birth_location(spec_set_faith(spec_set_culture(b, loc.culture), loc.faith), loc)
    } else {
        let culture = spec_get_culture(loc, culture_dice);
        let faith = spec_get_faith(loc, culture, faith_dice);
        spec_set_birth_location(spec_set_faith(spec_set_culture(b, culture), faith), loc)
    }
}

/// Fills in the birthplace, culture and faith from the given dice.
pub fn birth_from_dice(
    b: &mut BaseBackend,
    d6s: (i8, i8, i8),
    d3: i8,
    culture_dice: (i8, i8, i8, i8),
    faith_dice: (i8, i8),
)
    requires
        old(b)@.inv(),
        1 <= d6s.0 <= 6,
        1 <= d6s.1 <= 6,
        1 <= d6s.2 <= 6,
        1 <= d3 <= 3,
        1 <= culture_dice.0 <= 6,
        1 <= culture_dice.1 <= 6,
        1 <= culture_dice.2 <= 6,
        1 <= culture_dice.3 <= 6,
        1 <= faith_dice.0 <= 6,
        1 <= faith_dice.1 <= 6,
    ensures
        final(b)@.inv(),
        final(b)@ == spec_birth_from_dice(old(b)@, d6s, d3, culture_dice, faith_dice),
        parents_ready(final(b)@),
{
    let loc = location_table(d6s, d3);
    if loc.far_afield {
        b.set_culture(loc.culture);
        b.set_faith(loc.faith);
        b.set_birth_location(loc);
    } else {
        let culture = get_culture(&loc, culture_dice);
        let faith = get_faith(&loc, culture, faith_dice);
        b.set_culture(culture);
        b.set_faith(faith);
        b.set_birth_location(loc);
    }
}

fn d6_value() -> (r: i8)
    ensures
        1 <= r <= 6,
{
    sample_inclusive(1, 6)
}

fn d3_value() -> (r: i8)
    ensures
        1 <= r <= 3,
{
    sample_inclusive(1, 3)
}

/// Rolls the location of birth and, with it, the upbringing culture and
/// faith, as `spec_birth_from_dice` says for some handful of dice.
pub fn roll_location_of_birth(b: &mut BaseBackend)
    requires
        old(b)@.inv(),
    ensures
        final(b)@.inv(),
        parents_ready(final(b)@),
        exists|d6s: (i8, i8, i8), d3: i8, cd: (i8, i8, i8, i8), fd: (i8, i8)|
            {
                &&& 1 <= d6s.0 <= 6 && 1 <= d6s.1 <= 6 && 1 <= d6s.2 <= 6
                &&& 1 <= d3 <= 3
                &&& 1 <= cd.0 <= 6 && 1 <= cd.1 <= 6 && 1 <= cd.2 <= 6 && 1 <= cd.3 <= 6
                &&& 1 <= fd.0 <= 6 && 1 <= fd.1 <= 6
                &&& final(b)@ == #[trigger] spec_birth_from_dice(old(b)@, d6s, d3, cd, fd)
            },
{
    let d6s = (d6_value(), d6_value(), d6_value());
    let d3 = d3_value();
    let cd = (d6_value(), d6_value(), d6_value(), d6_value());
    let fd = (d6_value(), d6_value());
    birth_from_dice(b, d6s, d3, cd, fd);
    proof {
        assert(b@ == spec_birth_from_dice(old(b)@, d6s, d3, cd, fd));
    }
}

} // verus!
