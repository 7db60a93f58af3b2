//! The driver plumbing for generation procedures. A procedure is an
//! explicit state machine advanced one bounded step at a time: each step
//! consumes an input (a go-ahead, an answer to the published choice, or
//! the dice it asked for) and yields what to do next. The pump turns this
//! into the suspension protocol proper: between two published choices it
//! rolls whatever dice the machine asks for and steps it on, so the driver
//! outside only ever sees choices.

use crate::dice::{AsPool, D100Pool, MagicDice};
use crate::ipc::{Answer, Choice, ChoiceV};
use vstd::prelude::*;

verus! {

/// The dice a machine asks the pump to roll.
#[derive(Copy, Clone, Debug, PartialEq, Eq, Structural)]
pub enum RollRequest {
    /// A pool of hundred-sided dice sharing one units die.
    HundredPool { count: usize },
    /// A pool of plain dice.
    Pool { count: usize, sides: u8 },
    /// A magic-dice roll.
    Magic,
}

/// A roll request the pump can satisfy.
pub open spec fn req_wf(req: RollRequest) -> bool {
    match req {
        RollRequest::HundredPool { count } => true,
        RollRequest::Pool { count, sides } => 1 <= sides <= 127 && count * sides <= 127,
        RollRequest::Magic => true,
    }
}

/// The dice handed back for a roll request.
pub enum Rolls {
    Hundred(D100Pool),
    Pool(Vec<i8>),
    Magic(MagicDice),
}

/// Whether a handful of dice answers a request: the right shape, the
/// right number of dice, every die on its faces.
pub open spec fn rolls_match(req: RollRequest, r: Rolls) -> bool {
    match (req, r) {
        (RollRequest::HundredPool { count }, Rolls::Hundred(p)) => p.pool_valid()
            && p.d100s@.len() == count,
        (RollRequest::Pool { count, sides }, Rolls::Pool(v)) => v@.len() == count && (forall|
            i: int,
        |
            0 <= i < v@.len() ==> 1 <= #[trigger] v@[i] <= sides as i8),
        (RollRequest::Magic, Rolls::Magic(m)) => m.valid(),
        _ => false,
    }
}

/// One input to a machine step: the go-ahead, the driver's answer to the
/// published choice, or the dice the machine asked for.
pub enum Input {
    Go,
    Answered(Answer),
    Rolled(Rolls),
}

/// What a machine step yielded: a choice to publish, dice to roll, more
/// bounded work to do, the end of the procedure, or a gap in the static
/// tables (fatal rather than silently defaulted).
pub enum Outcome {
    Ask(Choice),
    NeedRoll(RollRequest),
    Working,
    Done,
    TableFault,
}

/// The abstract value of a step's outcome.
#[verifier::ext_equal]
pub ghost enum OutcomeV {
    Ask(ChoiceV),
    NeedRoll(RollRequest),
    Working,
    Done,
    TableFault,
}

impl View for Outcome {
    type V = OutcomeV;

    open spec fn view(&self) -> OutcomeV {
        match self {
            Outcome::Ask(c) => OutcomeV::Ask(c@),
            Outcome::NeedRoll(r) => OutcomeV::NeedRoll(*r),
            Outcome::Working => OutcomeV::Working,
            Outcome::Done => OutcomeV::Done,
            Outcome::TableFault => OutcomeV::TableFault,
        }
    }
}

/// The four kinds of answer a choice can be answered with.
#[derive(Copy, Clone, Debug, PartialEq, Eq, Structural)]
pub enum AnswerKind {
    Select,
    Text,
    Pick,
    YesNo,
}

/// What a machine awaits next.
pub ghost enum Expect {
    Go,
    Roll(RollRequest),
    Answer(AnswerKind),
    Finished,
}

/// Whether an input is of the kind a machine awaits. Answer contents are
/// checked by each machine's own precondition; this covers the shape.
pub open spec fn input_fits(e: Expect, input: Input) -> bool {
    match (e, input) {
        (Expect::Go, Input::Go) => true,
        (Expect::Roll(req), Input::Rolled(r)) => rolls_match(req, r),
        (Expect::Answer(AnswerKind::Select), Input::Answered(Answer::Selected(_))) => true,
        (Expect::Answer(AnswerKind::Text), Input::Answered(Answer::Text(_))) => true,
        (Expect::Answer(AnswerKind::Pick), Input::Answered(Answer::Picked(p))) => match p {
            Option::Some(i) => 1 <= i <= 100,
            Option::None => true,
        },
        (Expect::Answer(AnswerKind::YesNo), Input::Answered(Answer::YesNo(_))) => true,
        _ => false,
    }
}

/// A generation procedure: one of the interactive state machines, ready
/// to be pumped.
pub enum Event {
    PickStat(crate::birth::PickStatProc),
    CoreStats(crate::birth::CoreStatsProc),
    Affiliation(crate::lifepath::AffiliationProc),
    Career(crate::lifepath::CareerProc),
    Parents(crate::birth::ParentsProc),
    Omens(crate::birth::OmensProc),
}

/// What each procedure needs the character to hold before it runs; the
/// stage sequencer is the legitimate caller and guarantees the order.
pub open spec fn event_ready(ev: Event, b: crate::backend::BackendV) -> bool {
    match ev {
        Event::PickStat(_) => true,
        Event::CoreStats(_) => true,
        Event::Affiliation(_) => crate::lifepath::lifepath_ready(b),
        Event::Career(_) => crate::lifepath::career_ready(b),
        Event::Parents(_) => crate::birth::parents_ready(b),
        Event::Omens(_) => crate::birth::omens_ready(b),
    }
}

/// One step of whichever procedure the event wraps.
pub open spec fn spec_event_advance(ev: Event, b: crate::backend::BackendV, input: Input) -> (
    Event,
    crate::backend::BackendV,
    OutcomeV,
) {
    match ev {
        Event::PickStat(m) => {
            let stepped = crate::birth::spec_pick_stat_advance(m, b, input);
            (Event::PickStat(stepped.0), stepped.1, stepped.2)
        },
        Event::CoreStats(m) => {
            let stepped = crate::birth::spec_core_stats_advance(m, b, input);
            (Event::CoreStats(stepped.0), stepped.1, stepped.2)
        },
        Event::Affiliation(m) => {
            let stepped = crate::lifepath::spec_aff_advance(m, b, input);
            (Event::Affiliation(stepped.0), stepped.1, stepped.2)
        },
        Event::Career(m) => {
            let stepped = crate::lifepath::spec_career_advance(m, b, input);
            (Event::Career(stepped.0), stepped.1, stepped.2)
        },
        Event::Parents(m) => {
            let stepped = crate::birth::spec_parents_advance(m, b, input);
            (Event::Parents(stepped.0), stepped.1, stepped.2)
        },
        Event::Omens(m) => {
            let stepped = crate::birth::spec_omens_advance(m, b, input);
            (Event::Omens(stepped.0), stepped.1, stepped.2)
        },
    }
}

impl Event {
    /// The wrapped machine's structural bounds.
    pub open spec fn inv(self, b: crate::backend::BackendV) -> bool {
        match self {
            Event::PickStat(m) => m.inv(),
            Event::CoreStats(m) => m.inv(),
            Event::Affiliation(m) => m.inv(),
            Event::Career(m) => m.inv(),
            Event::Parents(m) => m.inv(b),
            Event::Omens(m) => m.inv(),
        }
    }

    /// What the wrapped machine awaits next.
    pub open spec fn expecting(self) -> Expect {
        match self {
            Event::PickStat(m) => m.expecting(),
            Event::CoreStats(m) => m.expecting(),
            Event::Affiliation(m) => m.expecting(),
            Event::Career(m) => m.expecting(),
            Event::Parents(m) => m.expecting(),
            Event::Omens(m) => m.expecting(),
        }
    }

    /// The wrapped machine's demands on an answer's content.
    pub open spec fn input_ok(self, b: crate::backend::BackendV, input: Input) -> bool {
        match self {
            Event::PickStat(m) => crate::birth::pick_stat_input_ok(m, b, input),
            Event::CoreStats(m) => crate::birth::pick_stat_input_ok(m.inner, b, input),
            Event::Affiliation(_) => true,
            Event::Career(m) => crate::lifepath::career_input_ok(m, input),
            Event::Parents(m) => crate::birth::parents_input_ok(m, input),
            Event::Omens(m) => crate::birth::omens_input_ok(m, input),
        }
    }

    /// One step of the wrapped procedure, exactly as the model gives it.
    pub fn advance(&mut self, b: &mut crate::backend::BaseBackend, input: Input) -> (o: Outcome)
        requires
            old(b)@.inv(),
            event_ready(*old(self), old(b)@),
            old(self).inv(old(b)@),
            input_fits(old(self).expecting(), input),
            old(self).input_ok(old(b)@, input),
        ensures
            final(b)@.inv(),
            event_ready(*final(self), final(b)@),
            final(self).inv(final(b)@),
            *final(self) == spec_event_advance(*old(self), old(b)@, input).0,
            final(b)@ == spec_event_advance(*old(self), old(b)@, input).1,
            o@ == spec_event_advance(*old(self), old(b)@, input).2,
            o@ is Working ==> final(self).expecting() is Go,
            o@ matches OutcomeV::NeedRoll(r) ==> final(self).expecting() == Expect::Roll(r)
                && req_wf(r),
            o@ matches OutcomeV::Ask(c) ==> final(self).expecting() == Expect::Answer(
                crate::lifepath::spec_choice_kind(c),
            ),
            o@ is Done ==> final(self).expecting() is Finished,
    {
        match self {
            Event::PickStat(m) => m.advance(b, input),
            Event::CoreStats(m) => m.advance(b, input),
            Event::Affiliation(m) => m.advance(b, input),
            Event::Career(m) => m.advance(b, input),
            Event::Parents(m) => m.advance(b, input),
            Event::Omens(m) => m.advance(b, input),
        }
    }
}

/// What the pump hands back to the driver: the next choice to answer,
/// the end of the procedure, or a fault (a gap in the static tables, or
/// a run that did not settle within the given fuel).
pub enum Step {
    Ask(Choice),
    Done,
    Fault,
}

/// The input a call of the pump opens with: the go-ahead when no answer
/// is passed, the answer to the published choice otherwise.
pub open spec fn initial_input(answer: Option<Answer>) -> Input {
    match answer {
        Option::None => Input::Go,
        Option::Some(a) => Input::Answered(a),
    }
}

/// Drives a procedure to its next suspension point: rolls whatever dice
/// it asks for and steps it on until it publishes a choice, finishes, or
/// faults. Pass no answer to start or resume a procedure that awaits the
/// go-ahead, and the answer to the published choice otherwise.
///
/// Where the opening step is decided by no dice — the modeled step
/// suspends, finishes or faults at once — the pump is pinned to exactly
/// that modeled step: it publishes that very choice, finishes in that
/// very state, or faults on that modeled table gap. Dice enter only
/// through later steps, whose support the machines' own contracts give;
/// a fault otherwise comes only from fuel running out.
pub fn pump(ev: &mut Event, b: &mut crate::backend::BaseBackend, answer: Option<Answer>, fuel: u32) -> (s:
    Step)
    requires
        old(b)@.inv(),
        event_ready(*old(ev), old(b)@),
        old(ev).inv(old(b)@),
        match answer {
            Option::None => old(ev).expecting() is Go,
            Option::Some(a) => input_fits(old(ev).expecting(), Input::Answered(a)) && old(
                ev,
            ).input_ok(old(b)@, Input::Answered(a)),
        },
    ensures
        final(b)@.inv(),
        event_ready(*final(ev), final(b)@),
        final(ev).inv(final(b)@),
        s matches Step::Ask(c) ==> final(ev).expecting() == Expect::Answer(
            crate::lifepath::spec_choice_kind(c@),
        ),
        s is Done ==> final(ev).expecting() is Finished,
        fuel == 0 ==> s is Fault && *final(ev) == *old(ev) && final(b)@ == old(b)@,
        fuel >= 1 ==> (spec_event_advance(*old(ev), old(b)@, initial_input(answer)).2 matches
            OutcomeV::Ask(c0) ==> (s matches Step::Ask(c) && c@ == c0 && *final(ev)
            == spec_event_advance(*old(ev), old(b)@, initial_input(answer)).0 && final(b)@
            == spec_event_advance(*old(ev), old(b)@, initial_input(answer)).1)),
        fuel >= 1 && spec_event_advance(*old(ev), old(b)@, initial_input(answer)).2 is Done ==> (s
            is Done && *final(ev) == spec_event_advance(*old(ev), old(b)@, initial_input(answer)).0
            && final(b)@ == spec_event_advance(*old(ev), old(b)@, initial_input(answer)).1),
        fuel >= 1 && spec_event_advance(*old(ev), old(b)@, initial_input(answer)).2 is TableFault
            ==> (s is Fault && *final(ev) == spec_event_advance(
            *old(ev),
            old(b)@,
            initial_input(answer),
        ).0 && final(b)@ == spec_event_advance(*old(ev), old(b)@, initial_input(answer)).1),
{
    let ghost first = spec_event_advance(*old(ev), old(b)@, initial_input(answer));
    let mut input = match answer {
        Option::None => Input::Go,
        Option::Some(a) => Input::Answered(a),
    };
    proof {
        assert(first == spec_event_advance(*old(ev), old(b)@, input));
    }
    if fuel == 0 {
        return Step::Fault;
    }
    let o = ev.advance(b, input);
    match o {
        Outcome::Ask(c) => {
            return Step::Ask(c);
        },
        Outcome::Done => {
            return Step::Done;
        },
        Outcome::TableFault => {
            return Step::Fault;
        },
        Outcome::Working => {
            input = Input::Go;
        },
        Outcome::NeedRoll(req) => {
            input = Input::Rolled(roll_request(&req));
        },
    }
    let mut remaining = fuel - 1;
    loop
        invariant
            b@.inv(),
            event_ready(*ev, b@),
            ev.inv(b@),
            input_fits(ev.expecting(), input),
            ev.input_ok(b@, input),
            fuel >= 1,
            spec_event_advance(*old(ev), old(b)@, initial_input(answer)).2 is Working
                || spec_event_advance(*old(ev), old(b)@, initial_input(answer)).2 is NeedRoll,
        decreases remaining,
    {
        if remaining == 0 {
            return Step::Fault;
        }
        remaining = remaining - 1;
        let o = ev.advance(b, input);
        match o {
            Outcome::Ask(c) => {
                return Step::Ask(c);
            },
            Outcome::Done => {
                return Step::Done;
            },
            Outcome::TableFault => {
                return Step::Fault;
            },
            Outcome::Working => {
                input = Input::Go;
            },
            Outcome::NeedRoll(req) => {
                input = Input::Rolled(roll_request(&req));
            },
        }
    }
}

/// The single-stat procedure: pick a core stat, roll it and its three
/// subskills.
pub fn pick_stat() -> (ev: Event)
    ensures
        ev == Event::PickStat(crate::birth::PickStatProc {
            state: crate::birth::PickStatState::Start,
        }),
        forall|b: crate::backend::BackendV| ev.inv(b) && event_ready(ev, b),
        ev.expecting() is Go,
{
    Event::PickStat(crate::birth::PickStatProc::new())
}

/// The five core stats, each rolled by the single-stat procedure in
/// turn.
pub fn roll_core_stats() -> (ev: Event)
    ensures
        ev == Event::CoreStats(crate::birth::CoreStatsProc {
            inner: crate::birth::PickStatProc { state: crate::birth::PickStatState::Start },
            remaining: 5u8,
        }),
        forall|b: crate::backend::BackendV| ev.inv(b) && event_ready(ev, b),
        ev.expecting() is Go,
{
    Event::CoreStats(crate::birth::CoreStatsProc::new())
}

/// The guardians' affiliation, rank and career.
pub fn affiliation_rank_careers() -> (ev: Event)
    ensures
        ev == Event::Parents(crate::birth::ParentsProc {
            state: crate::birth::ParentsState::Start,
        }),
        forall|b: crate::backend::BackendV| #[trigger] ev.inv(b),
        ev.expecting() is Go,
{
    Event::Parents(crate::birth::ParentsProc::new())
}

/// The birth-omen event.
pub fn pick_omens() -> (ev: Event)
    ensures
        ev == Event::Omens(crate::birth::OmensProc { state: crate::birth::OmensState::Start }),
        forall|b: crate::backend::BackendV| #[trigger] ev.inv(b),
        ev.expecting() is Go,
{
    Event::Omens(crate::birth::OmensProc::new())
}

/// The affiliation roll alone, at the given disadvantage level.
pub fn roll_affiliation(disadvantage: usize) -> (ev: Event)
    requires
        disadvantage <= 100,
    ensures
        ev == Event::Affiliation(crate::lifepath::AffiliationProc {
            disadvantage,
            state: crate::lifepath::AffState::Start,
        }),
        forall|b: crate::backend::BackendV| #[trigger] ev.inv(b),
        ev.expecting() is Go,
{
    Event::Affiliation(crate::lifepath::AffiliationProc::new(disadvantage))
}

/// Career resolution alone, entered at the given rank (clamped to the
/// valid band, as every stored rank is).
pub fn change_rank(rank: i8) -> (ev: Event)
    ensures
        ev == Event::Career(crate::lifepath::CareerProc {
            rank: crate::backend::spec_clamp_rank(rank),
            state: crate::lifepath::CareerState::Resolve,
        }),
        forall|b: crate::backend::BackendV| #[trigger] ev.inv(b),
        ev.expecting() is Go,
{
    Event::Career(crate::lifepath::CareerProc::new(rank))
}

/// Determinism of the engine: a procedure state, a backend value and an
/// input admit exactly one successor. Two runs from the same starting
/// character that are fed the same sequence of answers and the same dice
/// therefore pass through the same states and end in the same character
/// and the same narration log, step by step.
pub proof fn lemma_advance_deterministic(
    ev1: Event,
    b1: crate::backend::BackendV,
    i1: Input,
    ev2: Event,
    b2: crate::backend::BackendV,
    i2: Input,
)
    requires
        ev1 == ev2,
        b1 == b2,
        i1 == i2,
    ensures
        spec_event_advance(ev1, b1, i1) == spec_event_advance(ev2, b2, i2),
{
}

/// Rolls the dice a machine asked for.
pub fn roll_request(req: &RollRequest) -> (r: Rolls)
    requires
        req_wf(*req),
    ensures
        rolls_match(*req, r),
{
    match req {
        RollRequest::HundredPool { count } => Rolls::Hundred(D100Pool::roll(*count)),
        RollRequest::Pool { count, sides } => {
            let mut v: Vec<i8> = Vec::new();
            let mut i: usize = 0;
            while i < *count
                invariant
                    0 <= i <= *count,
                    1 <= *sides <= 127,
                    v@.len() == i,
                    forall|j: int| 0 <= j < v@.len() ==> 1 <= #[trigger] v@[j] <= *sides as i8,
                decreases *count - i,
            {
                v.push(crate::dice::sample_inclusive(1, *sides as i8));
                i = i + 1;
            }
            Rolls::Pool(v)
        },
        RollRequest::Magic => Rolls::Magic(MagicDice::roll()),
    }
}

} // verus!
