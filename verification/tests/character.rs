use sof_chargen::careers::{Career, CareerClass};
use sof_chargen::character::{check, core_stats, CheckResult};
use sof_chargen::dice::{d100, DiceRoll};
use sof_chargen::perks::{Perk, Perks};
use sof_chargen::{BaseBackend, Stat};

#[test]
fn test_check() {
    assert_eq!(check(50, 2), CheckResult::CriticalSuccess);
    assert_eq!(check(50, 5), CheckResult::CriticalSuccess);
    assert_eq!(check(50, 96), CheckResult::CriticalFailure);
    assert_eq!(check(50, 100), CheckResult::CriticalFailure);
    assert_eq!(check(50, 50), CheckResult::Success);
    assert_eq!(check(50, 51), CheckResult::Failure);
    assert_eq!(check(50, 26), CheckResult::Success);
    assert_eq!(check(50, 25), CheckResult::HardSuccess);
    assert_eq!(check(50, 13), CheckResult::HardSuccess);
    assert_eq!(check(50, 12), CheckResult::ExtremeSuccess);
    assert_ne!(check(100, d100().result() as u64), CheckResult::Failure);
}

#[test]
fn subskills_of_core_stats() {
    assert_eq!(
        Stat::Arms.subskills(),
        vec![Stat::Block, Stat::Swing, Stat::Thrust]
    );
    assert_eq!(
        Stat::Mind.subskills(),
        vec![Stat::Language, Stat::Lore, Stat::Observe]
    );
    assert!(Stat::Luck.subskills().is_empty());
    assert_eq!(
        core_stats(),
        vec![Stat::Arms, Stat::Face, Stat::Hands, Stat::Legs, Stat::Mind]
    );
}

// Every rank ever written is stored clamped to zero through nine,
// whatever magnitude was passed in.
#[test]
fn rank_always_clamped() {
    let mut b = BaseBackend::new();
    b.set_rank(127);
    assert_eq!(b.character.rank, Some(9));
    b.set_rank(-128);
    assert_eq!(b.character.rank, Some(0));
    b.set_rank(4);
    assert_eq!(b.character.rank, Some(4));
    b.set_rank(10);
    assert_eq!(b.character.rank, Some(9));
    b.set_rank(-1);
    assert_eq!(b.character.rank, Some(0));
}

#[test]
fn rank_narration() {
    let mut b = BaseBackend::new();
    b.set_rank(3);
    assert_eq!(b.log_fifo.last().unwrap(), "Your parents lived life at rank 3.");
    b.set_rank(4);
    assert_eq!(b.log_fifo.last().unwrap(), "You gained a rank.");
    b.set_rank(3);
    assert_eq!(b.log_fifo.last().unwrap(), "You fell a rank.");
    b.set_rank(6);
    assert_eq!(b.log_fifo.last().unwrap(), "You gained 3 ranks.");
    b.set_rank(0);
    assert_eq!(b.log_fifo.last().unwrap(), "You fell 6 ranks.");
    let lines = b.log_fifo.len();
    b.set_rank(0);
    assert_eq!(b.log_fifo.len(), lines);
}

#[test]
fn stat_values_floor_at_one() {
    let mut b = BaseBackend::new();
    b.set_stat(Stat::Luck, &0i8);
    assert_eq!(b.get_stat(Stat::Luck), Some(1));
    b.set_stat(Stat::Luck, &-30i8);
    assert_eq!(b.get_stat(Stat::Luck), Some(1));
    b.set_stat(Stat::Luck, &77i8);
    assert_eq!(b.get_stat(Stat::Luck), Some(77));
}

#[test]
fn career_narration_lines() {
    let mut b = BaseBackend::new();
    let smith = Career {
        name: "Clan Crafter",
        class: CareerClass::Artisan,
    };
    b.set_career(smith);
    assert_eq!(b.character.parents_career.unwrap().name, "Clan Crafter");
    assert_eq!(b.log_fifo.last().unwrap(), "Your parents were Clan Crafters.");
    b.set_career(smith);
    assert_eq!(
        b.log_fifo.last().unwrap(),
        "You were apprenticed as a Clan Crafter, granting you the skills of a Artisan."
    );
    b.set_career(smith);
    assert_eq!(
        b.log_fifo.last().unwrap(),
        "You continued working as a Clan Crafter, granting you the skills of a master Artisan."
    );
    let other = Career {
        name: "Thief",
        class: CareerClass::Rogue,
    };
    b.set_career(other);
    assert_eq!(
        b.log_fifo.last().unwrap(),
        "You spent a time working as a Thief, granting you the skills of a Rogue."
    );
    assert_eq!(b.character.careers.len(), 3);
}

#[test]
fn perk_table_fills_and_rejects() {
    let mut p = Perks::new();
    for _ in 0..10 {
        assert!(p.insert_perk(Stat::Arms, Perk::Swimmer, None).is_ok());
    }
    assert!(p.insert_perk(Stat::Arms, Perk::Swimmer, None).is_err());
    assert_eq!(p.count_perk(Stat::Arms, &Perk::Swimmer), 10);
    assert_eq!(p.count_perk(Stat::Mind, &Perk::Swimmer), 0);
    let mut q = Perks::new();
    q.insert_perk(Stat::Mind, Perk::Lore("Nature"), None).unwrap();
    q.insert_perk(Stat::Mind, Perk::Lore("Medicine"), None).unwrap();
    assert_eq!(q.count_perk(Stat::Mind, &Perk::Lore("Nature")), 1);
    assert_eq!(q.count_perk(Stat::Mind, &Perk::Lore("History")), 0);
}
