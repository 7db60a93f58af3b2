use sof_chargen::backend::BaseBackend;
use sof_chargen::birth::apply_magic_roll;
use sof_chargen::careers::Affiliation;
use sof_chargen::dice::{D100Pool, MagicDice};
use sof_chargen::event::{
    change_rank, pick_stat, pump, roll_affiliation, Input, Outcome, Rolls, Step,
};
use sof_chargen::ipc;
use sof_chargen::ipc::{Answer, Choice};
use sof_chargen::locations::{CareerTable, Culture, Demographic, Faith, Location};
use sof_chargen::scenarios::{kremish_accorder, non_kremish_accorder};
use sof_chargen::stages::LifeStage;
use sof_chargen::{BirthOmen, Character, Stat};

// Scenario A: a rank-three slumfolk Kremish follower of the Accord is
// offered the conversion to Gytungrug; saying yes yields a terminal
// career at rank three.
#[test]
fn scenario_kremish_accorder() {
    let mut b = BaseBackend::new();
    let mut ev = kremish_accorder(&mut b);
    let o = ev.advance(&mut b, Input::Go);
    let options = match o {
        Outcome::Ask(Choice::Selection(s)) => s,
        _ => panic!("expected the career selection"),
    };
    assert_eq!(options.options.len(), 2);
    assert_eq!(options.options[0].description, "Peddler (C)");
    assert_eq!(options.options[1].description, "Dewisetic (Z)");

    let o = ev.advance(&mut b, Input::Answered(Answer::Selected(1)));
    match o {
        Outcome::Ask(Choice::Question(q)) => {
            assert!(q.description.contains("Gytungrug"));
        }
        _ => panic!("expected the conversion question"),
    }

    let o = ev.advance(&mut b, Input::Answered(Answer::YesNo(true)));
    assert!(matches!(o, Outcome::Done));
    assert_eq!(b.character.faith, Some(Faith::Gytungrug));
    assert_eq!(b.character.rank, Some(3));
    assert_eq!(b.character.parents_career.unwrap().name, "Dewisetic");
}

// Scenario B: the same start with a Varlish upbringing never offers a
// conversion; the open career resolves directly.
#[test]
fn scenario_non_kremish_accorder() {
    let mut b = BaseBackend::new();
    let mut ev = non_kremish_accorder(&mut b);
    let o = ev.advance(&mut b, Input::Go);
    assert!(matches!(o, Outcome::Done));
    assert_eq!(b.character.faith, Some(Faith::Accorder));
    assert_eq!(b.character.parents_career.unwrap().name, "Peddler");
}

// Scenario C: prophetic signs with two charges let a roll be overridden
// twice; the third roll is no longer offered as a pick.
#[test]
fn scenario_prophetic_signs_charges() {
    let mut b = BaseBackend::new();
    let _ = non_kremish_accorder(&mut b);
    b.set_omen(BirthOmen::PropheticSigns(2));

    for expected_left in [1usize, 0usize] {
        let mut ev = roll_affiliation(0);
        assert!(matches!(ev.advance(&mut b, Input::Go), Outcome::NeedRoll(_)));
        let o = ev.advance(
            &mut b,
            Input::Rolled(Rolls::Hundred(D100Pool {
                d100s: vec![90],
                d10: 5,
            })),
        );
        assert!(matches!(o, Outcome::Ask(Choice::PickRoll(_))));
        let o = ev.advance(&mut b, Input::Answered(Answer::Picked(Some(95))));
        assert!(matches!(o, Outcome::Done));
        assert_eq!(b.character.omen, Some(BirthOmen::PropheticSigns(expected_left)));
    }

    // with no charges left the roll resolves directly: no pick is offered
    let mut ev = roll_affiliation(0);
    assert!(matches!(ev.advance(&mut b, Input::Go), Outcome::NeedRoll(_)));
    let o = ev.advance(
        &mut b,
        Input::Rolled(Rolls::Hundred(D100Pool {
            d100s: vec![90],
            d10: 5,
        })),
    );
    assert!(matches!(o, Outcome::Done));
    assert_eq!(b.character.affiliation, Some(Affiliation::Slumfolk));
}

// Refusing a conversion in the affiliation loop drops exactly one rank
// and re-rolls; the rank never rises while the loop runs.
#[test]
fn refusing_conversion_drops_one_rank() {
    let mut b = BaseBackend::new();
    let _ = non_kremish_accorder(&mut b);
    b.set_faith(Faith::Irreligious);

    let mut ev = roll_affiliation(0);
    assert!(matches!(ev.advance(&mut b, Input::Go), Outcome::NeedRoll(_)));
    // 28 lands on the Watch, which requires the Accord
    let o = ev.advance(
        &mut b,
        Input::Rolled(Rolls::Hundred(D100Pool {
            d100s: vec![20],
            d10: 8,
        })),
    );
    assert!(matches!(o, Outcome::Ask(Choice::Question(_))));
    let o = ev.advance(&mut b, Input::Answered(Answer::YesNo(false)));
    assert!(matches!(o, Outcome::Working));
    assert_eq!(b.character.rank, Some(2));
    assert_eq!(b.log_fifo.last().unwrap(), "You fell a rank.");
}

// Round trip: the same starting character fed the same answers twice
// yields the same character and the same narration log.
#[test]
fn deterministic_given_same_answers() {
    let mut runs: Vec<BaseBackend> = Vec::new();
    for _ in 0..2 {
        let mut b = BaseBackend::new();
        let mut ev = kremish_accorder(&mut b);
        assert!(matches!(ev.advance(&mut b, Input::Go), Outcome::Ask(_)));
        assert!(matches!(
            ev.advance(&mut b, Input::Answered(Answer::Selected(1))),
            Outcome::Ask(_)
        ));
        assert!(matches!(
            ev.advance(&mut b, Input::Answered(Answer::YesNo(true))),
            Outcome::Done
        ));
        runs.push(b);
    }
    let (a, z) = (&runs[0], &runs[1]);
    assert_eq!(a.character.stats, z.character.stats);
    assert_eq!(a.character.faith, z.character.faith);
    assert_eq!(a.character.culture, z.character.culture);
    assert_eq!(a.character.affiliation, z.character.affiliation);
    assert_eq!(a.character.rank, z.character.rank);
    assert_eq!(a.character.parents_career, z.character.parents_career);
    assert_eq!(a.character.careers, z.character.careers);
    assert_eq!(a.log_fifo, z.log_fifo);
}

// The protocol in the small: a procedure is pumped to each suspension
// point and resumed with one answer of the matching kind.
#[test]
fn test_simple_choices() {
    let mut b = BaseBackend::new();
    let mut ev = pick_stat();
    let mut step = pump(&mut ev, &mut b, None, 1000);
    let mut suspensions = 0;
    loop {
        match step {
            Step::Ask(choice) => {
                suspensions += 1;
                assert!(suspensions < 20);
                let answer = match &choice {
                    Choice::Selection(_) => Answer::Selected(0),
                    Choice::Text(_) => Answer::Text(String::from("example")),
                    Choice::PickRoll(p) => Answer::Picked(Some(p.max)),
                    Choice::Question(_) => Answer::YesNo(true),
                };
                step = pump(&mut ev, &mut b, Some(answer), 1000);
            }
            Step::Done => break,
            Step::Fault => panic!("the procedure faulted"),
        }
    }
    // one core pick plus three subskill picks
    assert_eq!(suspensions, 4);
    assert!(b.get_stat(Stat::Arms).is_some());
    assert!(b.get_stat(Stat::Block).is_some());
    assert!(b.get_stat(Stat::Swing).is_some());
    assert!(b.get_stat(Stat::Thrust).is_some());
}

// Scenario D: a core stat pool of two dice picking the lowest, with
// both draws at one hundred, stores a stat of exactly one hundred.
#[test]
fn double_hundred_core_stat() {
    let mut b = BaseBackend::new();
    let mut ev = pick_stat();
    let o = ev.advance(&mut b, Input::Go);
    assert!(matches!(o, Outcome::Ask(Choice::Selection(_))));
    let o = ev.advance(&mut b, Input::Answered(Answer::Selected(0)));
    match o {
        Outcome::NeedRoll(_) => {}
        _ => panic!("expected the stat pool request"),
    }
    let o = ev.advance(
        &mut b,
        Input::Rolled(Rolls::Hundred(D100Pool {
            d100s: vec![0, 0],
            d10: 0,
        })),
    );
    assert!(matches!(o, Outcome::Ask(Choice::Selection(_))));
    assert_eq!(b.get_stat(Stat::Arms), Some(100));
}

// A table gap (an entry that redirects to itself) is surfaced as a
// fault, never silently defaulted.
#[test]
fn table_gap_faults() {
    let mut b = BaseBackend::new();
    let mut c = Character::new();
    c.birth_location = Some(Location {
        name: "colony",
        culture: Culture::Varlish,
        secondary_culture: Culture::Varlish,
        faith: Faith::IdealLodges,
        secondary_faith: Faith::IdealLodges,
        demographic: Demographic::Urban,
        career_table: CareerTable::Nivena,
        far_afield: false,
    });
    c.culture = Some(Culture::Varlish);
    c.faith = Some(Faith::IdealLodges);
    c.affiliation = Some(Affiliation::Criminals);
    c.rank = Some(6);
    b.character = c;
    let mut ev = change_rank(6);
    let step = pump(&mut ev, &mut b, None, 50);
    assert!(matches!(step, Step::Fault));

    // with no fuel at all the pump faults without touching anything
    let log_before = b.log_fifo.len();
    let mut fresh = change_rank(6);
    let step = pump(&mut fresh, &mut b, None, 0);
    assert!(matches!(step, Step::Fault));
    assert_eq!(b.log_fifo.len(), log_before);
}

// A magic total at or past one hundred reads as death in the narration
// and is stored all the same.
#[test]
fn magic_dice_death() {
    let mut b = BaseBackend::new();
    let roll = MagicDice {
        first: vec![7, 7, 7, 7, 7, 7, 7, 7, 7, 7, 7, 7, 7, 9],
        second: vec![1],
    };
    apply_magic_roll(&mut b, &roll);
    assert_eq!(b.get_stat(Stat::Magic), Some(101));
    assert_eq!(
        b.log_fifo.last().unwrap(),
        "You died during character creation!"
    );

    let mut quiet = BaseBackend::new();
    let small = MagicDice {
        first: vec![4],
        second: vec![6],
    };
    apply_magic_roll(&mut quiet, &small);
    assert_eq!(quiet.get_stat(Stat::Magic), Some(10));
    assert!(quiet.log_fifo.is_empty());
}

// The stage sequencer orders the coarse phases and stops after the last
// implemented one.
#[test]
fn stage_sequencer_order() {
    let mut b = BaseBackend::new();
    let (s1, _) = LifeStage::Intro.next(&mut b).unwrap();
    assert_eq!(s1, LifeStage::RollStats);
    assert!(b.character.birth_location.is_none());
    let (s2, _) = s1.next(&mut b).unwrap();
    assert_eq!(s2, LifeStage::RollParents);
    assert!(b.character.birth_location.is_some());
    assert!(b.character.culture.is_some());
    assert!(b.character.faith.is_some());
    let (s3, _) = s2.next(&mut b).unwrap();
    assert_eq!(s3, LifeStage::RollOmens);
    assert!(s3.next(&mut b).is_none());
    assert!(LifeStage::Newborn.next(&mut b).is_none());
    assert!(LifeStage::Events.next(&mut b).is_none());
}

// The guardians' procedure end to end with fixed dice: affiliation from
// the percentile roll, rank from the rank die, then a career picked.
#[test]
fn parents_story_with_fixed_dice() {
    let mut b = BaseBackend::new();
    let _ = non_kremish_accorder(&mut b);
    let mut ev = sof_chargen::event::affiliation_rank_careers();
    assert!(matches!(ev.advance(&mut b, Input::Go), Outcome::NeedRoll(_)));
    // 95 lands on the slumfolk, which carry no faith gate here
    let o = ev.advance(&mut b, Input::Rolled(Rolls::Pool(vec![95])));
    assert!(matches!(o, Outcome::NeedRoll(_)));
    // a rank die of one gives rank one under the slumfolk
    let o = ev.advance(&mut b, Input::Rolled(Rolls::Pool(vec![1])));
    assert!(matches!(o, Outcome::Working));
    assert_eq!(b.character.rank, Some(1));
    assert_eq!(b.character.affiliation, Some(Affiliation::Slumfolk));
    let o = ev.advance(&mut b, Input::Go);
    let options = match o {
        Outcome::Ask(Choice::Selection(s)) => s,
        _ => panic!("expected the career pair"),
    };
    assert_eq!(options.description, "Pick your guardians' career:");
    let o = ev.advance(&mut b, Input::Answered(Answer::Selected(1)));
    assert!(matches!(o, Outcome::Done));
    assert_eq!(b.character.parents_career.unwrap().name, "Odd Jobber");
}

// The prosperous constellations: stamina rerolled keeping the higher
// value, and the guardians' career handed down without a career prompt.
#[test]
fn omen_prosperous_constellations() {
    let mut b = BaseBackend::new();
    let _ = non_kremish_accorder(&mut b);
    let parents = sof_chargen::careers::Career {
        name: "Peddler",
        class: sof_chargen::careers::CareerClass::ConArtist,
    };
    b.set_career(parents);
    let mut ev = sof_chargen::event::pick_omens();
    let o = ev.advance(&mut b, Input::Go);
    let options = match o {
        Outcome::Ask(Choice::Selection(s)) => s,
        _ => panic!("expected the omen selection"),
    };
    assert_eq!(options.options.len(), 5);
    assert_eq!(options.options[1].description, "Prophetic Signs (uses: 2)");
    let o = ev.advance(&mut b, Input::Answered(Answer::Selected(0)));
    assert!(matches!(o, Outcome::NeedRoll(_)));
    let o = ev.advance(&mut b, Input::Rolled(Rolls::Pool(vec![6, 6])));
    assert!(matches!(o, Outcome::Done));
    assert_eq!(b.character.omen, Some(BirthOmen::ProsperousConstellations));
    assert_eq!(b.get_stat(Stat::Stamina), Some(12));
    assert_eq!(b.character.careers.len(), 1);
    assert_eq!(b.character.careers[0].name, "Peddler");
}

// The practically-minded omen swaps two core stats and each pair of
// their subskills, then drops one rank before the career resolves.
#[test]
fn omen_practically_minded_swaps() {
    let mut b = BaseBackend::new();
    let _ = non_kremish_accorder(&mut b);
    let parents = sof_chargen::careers::Career {
        name: "Peddler",
        class: sof_chargen::careers::CareerClass::ConArtist,
    };
    b.set_career(parents);
    b.set_stat(Stat::Arms, &80i8);
    b.set_stat(Stat::Block, &70i8);
    b.set_stat(Stat::Face, &30i8);
    b.set_stat(Stat::Charm, &20i8);

    let mut ev = sof_chargen::event::pick_omens();
    assert!(matches!(ev.advance(&mut b, Input::Go), Outcome::Ask(_)));
    // the practically-minded omen
    let o = ev.advance(&mut b, Input::Answered(Answer::Selected(2)));
    assert!(matches!(o, Outcome::Ask(Choice::Selection(_))));
    // swap Arms with Face (the first option once Arms is taken out)
    let o = ev.advance(&mut b, Input::Answered(Answer::Selected(0)));
    assert!(matches!(o, Outcome::Ask(Choice::Selection(_))));
    let o = ev.advance(&mut b, Input::Answered(Answer::Selected(0)));
    assert!(matches!(o, Outcome::Working));

    assert_eq!(b.get_stat(Stat::Arms), Some(30));
    assert_eq!(b.get_stat(Stat::Face), Some(80));
    assert_eq!(b.get_stat(Stat::Block), Some(20));
    assert_eq!(b.get_stat(Stat::Charm), Some(70));
    // an unrolled counterpart swaps in as the floor of one
    assert_eq!(b.get_stat(Stat::Swing), Some(1));
    assert_eq!(b.character.rank, Some(2));

    // the career then resolves at the lowered rank
    let o = ev.advance(&mut b, Input::Go);
    let options = match o {
        Outcome::Ask(Choice::Selection(s)) => s,
        _ => panic!("expected the career pair at rank two"),
    };
    assert_eq!(options.description, "Pick your career:");
    let o = ev.advance(&mut b, Input::Answered(Answer::Selected(0)));
    assert!(matches!(o, Outcome::Done));
    assert_eq!(b.character.careers.last().unwrap().name, "Militia");
}

// The wire shape of each choice kind carries what a presentation layer
// needs: a description, and for a pick the underlying range.
#[test]
fn choice_descriptions() {
    let q = ipc::Choice::Question(ipc::Question {
        description: String::from("Do you convert?"),
    });
    assert_eq!(q.description(), "Do you convert?");
    let p = ipc::Choice::PickRoll(ipc::PickRoll {
        description: String::from("Roll a new affiliation"),
        min: 1,
        max: 100,
    });
    assert_eq!(p.description(), "Roll a new affiliation");
    let t = ipc::Choice::Text(ipc::TraitChoice {
        description: String::from("Describe a trait"),
    });
    assert_eq!(t.description(), "Describe a trait");
    let s = ipc::Choice::Selection(ipc::Selection {
        description: String::from("Pick your birth omen"),
        options: vec![ipc::Choosable::from(String::from("Shooting Star"))],
    });
    assert_eq!(s.description(), "Pick your birth omen");
    assert_eq!(s.description().len(), 20);
}
