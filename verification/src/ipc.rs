//! The suspension protocol's message types. A generation procedure pauses
//! only at one of four kinds of choice; the external driver answers each
//! choice exactly once, with an answer of the matching kind, and pumps the
//! procedure on.

use vstd::prelude::*;
use vstd::string::StringExecFns;

verus! {

/// One option of a selection, already rendered for presentation.
pub struct Choosable {
    pub description: String,
}

impl Choosable {
    pub fn from(description: String) -> (r: Choosable)
        ensures
            r.description@ == description@,
    {
        Choosable { description }
    }
}

/// A selection among described options, answered with an option index.
pub struct Selection {
    pub description: String,
    pub options: Vec<Choosable>,
}

/// A free-text prompt, answered with a string.
pub struct TraitChoice {
    pub description: String,
}

/// A pick-a-number prompt bound to a dice expression's range, answered
/// with a number in that range or with nothing to roll it instead.
pub struct PickRoll {
    pub description: String,
    pub min: i8,
    pub max: i8,
}

/// A yes/no question, answered with a boolean.
pub struct Question {
    pub description: String,
}

/// A suspension point: the message a paused procedure publishes.
pub enum Choice {
    Selection(Selection),
    Text(TraitChoice),
    PickRoll(PickRoll),
    Question(Question),
}

/// The abstract value of a published choice.
#[verifier::ext_equal]
pub ghost enum ChoiceV {
    Selection { description: Seq<char>, options: Seq<Seq<char>> },
    Text { description: Seq<char> },
    PickRoll { description: Seq<char>, min: i8, max: i8 },
    Question { description: Seq<char> },
}

impl View for Choice {
    type V = ChoiceV;

    open spec fn view(&self) -> ChoiceV {
        match self {
            Choice::Selection(s) => ChoiceV::Selection {
                description: s.description@,
                options: s.options@.map_values(|o: Choosable| o.description@),
            },
            Choice::Text(t) => ChoiceV::Text { description: t.description@ },
            Choice::PickRoll(p) => ChoiceV::PickRoll {
                description: p.description@,
                min: p.min,
                max: p.max,
            },
            Choice::Question(q) => ChoiceV::Question { description: q.description@ },
        }
    }
}

impl Choice {
    /// The prompt shown for this choice.
    pub fn description(&self) -> (r: &str)
        ensures
            r@ == self.spec_description(),
    {
        match self {
            Choice::Selection(s) => s.description.as_str(),
            Choice::Text(t) => t.description.as_str(),
            Choice::PickRoll(p) => p.description.as_str(),
            Choice::Question(q) => q.description.as_str(),
        }
    }

    pub open spec fn spec_description(&self) -> Seq<char> {
        match self@ {
            ChoiceV::Selection { description, .. } => description,
            ChoiceV::Text { description } => description,
            ChoiceV::PickRoll { description, .. } => description,
            ChoiceV::Question { description } => description,
        }
    }
}

impl From<Selection> for Choice {
    fn from(value: Selection) -> (r: Self) {
        Choice::Selection(value)
    }
}

impl vstd::std_specs::convert::FromSpecImpl<Selection> for Choice {
    open spec fn obeys_from_spec() -> bool {
        true
    }

    open spec fn from_spec(t: Selection) -> Choice {
        Choice::Selection(t)
    }
}

impl From<TraitChoice> for Choice {
    fn from(value: TraitChoice) -> (r: Self) {
        Choice::Text(value)
    }
}

impl vstd::std_specs::convert::FromSpecImpl<TraitChoice> for Choice {
    open spec fn obeys_from_spec() -> bool {
        true
    }

    open spec fn from_spec(t: TraitChoice) -> Choice {
        Choice::Text(t)
    }
}

impl From<PickRoll> for Choice {
    fn from(value: PickRoll) -> (r: Self) {
        Choice::PickRoll(value)
    }
}

impl vstd::std_specs::convert::FromSpecImpl<PickRoll> for Choice {
    open spec fn obeys_from_spec() -> bool {
        true
    }

    open spec fn from_spec(t: PickRoll) -> Choice {
        Choice::PickRoll(t)
    }
}

/// The answer the driver writes into the current choice before pumping
/// the procedure on.
pub enum Answer {
    /// The index of the selected option.
    Selected(usize),
    /// The submitted free text.
    Text(String),
    /// The picked number, or nothing to roll the dice instead.
    Picked(Option<i8>),
    /// The answer to a yes/no question.
    YesNo(bool),
}

/// The abstract value of an answer.
pub ghost enum AnswerV {
    Selected(usize),
    Text(Seq<char>),
    Picked(Option<i8>),
    YesNo(bool),
}

impl View for Answer {
    type V = AnswerV;

    open spec fn view(&self) -> AnswerV {
        match self {
            Answer::Selected(i) => AnswerV::Selected(*i),
            Answer::Text(t) => AnswerV::Text(t@),
            Answer::Picked(p) => AnswerV::Picked(*p),
            Answer::YesNo(b) => AnswerV::YesNo(*b),
        }
    }
}

} // verus!
