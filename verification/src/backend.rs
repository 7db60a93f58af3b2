//! The mutation backend: the sole surface through which generation steps
//! change the character. Every setter's effect, including the narration
//! line it appends to the audit log, is stated exactly by a spec model
//! over the backend's abstract view.

use crate::careers::{spec_affiliation_name, spec_career_eq, spec_class_name, Affiliation, Career};
use crate::character::{spec_stat_index, BirthOmen, Character, CharacterV, Stat, STAT_COUNT};
use crate::dice::DiceRoll;
use crate::locations::{spec_culture_name, spec_faith_name, Culture, Faith, Location};
use crate::text::{dec_i8, dec_int, str_eq};
use vstd::prelude::*;
use vstd::string::StringExecFns;

verus! {

/// The character record together with the narration log, the audit trail
/// of every mutation made while building it.
pub struct BaseBackend {
    pub character: Character,
    pub log_fifo: Vec<String>,
}

/// The abstract value of the backend: the character and the log lines in
/// the order they were emitted.
pub ghost struct BackendV {
    pub character: CharacterV,
    pub log: Seq<Seq<char>>,
}

impl View for BaseBackend {
    type V = BackendV;

    open spec fn view(&self) -> BackendV {
        BackendV { character: self.character@, log: self.log_fifo@.map_values(|t: String| t@) }
    }
}

impl BackendV {
    pub open spec fn inv(self) -> bool {
        self.character.wf()
    }
}

/// A stat value as stored: during generation a stat may not go below one.
pub open spec fn spec_clamp_stat(result: int) -> i8 {
    if result < 1 {
        1
    } else {
        result as i8
    }
}

/// A rank as stored: always clamped to zero through nine, whatever was
/// passed in.
pub open spec fn spec_clamp_rank(rank: i8) -> i8 {
    if rank < 0 {
        0
    } else if rank > 9 {
        9
    } else {
        rank
    }
}

/// Writing a stat stores the roll's outcome, raised to one if it fell
/// below; nothing is logged.
pub open spec fn spec_set_stat(b: BackendV, stat: Stat, result: int) -> BackendV {
    BackendV {
        character: CharacterV {
            stats: b.character.stats.update(spec_stat_index(stat), Some(spec_clamp_stat(result))),
            ..b.character
        },
        log: b.log,
    }
}

pub open spec fn spec_gain_trait(b: BackendV, description: Seq<char>) -> BackendV {
    BackendV {
        character: CharacterV { traits: b.character.traits.push(description), ..b.character },
        log: b.log,
    }
}

pub open spec fn spec_set_omen(b: BackendV, omen: BirthOmen) -> BackendV {
    BackendV { character: CharacterV { omen: Some(omen), ..b.character }, log: b.log }
}

pub open spec fn spec_born_line(loc: Location) -> Seq<char> {
    "You were born in "@ + loc.name@ + "."@
}

pub open spec fn spec_set_birth_location(b: BackendV, loc: Location) -> BackendV {
    BackendV {
        character: CharacterV { birth_location: Some(loc), ..b.character },
        log: b.log.push(spec_born_line(loc)),
    }
}

pub open spec fn spec_raised_line(culture: Culture) -> Seq<char> {
    "You were raised "@ + spec_culture_name(culture) + "."@
}

pub open spec fn spec_set_culture(b: BackendV, culture: Culture) -> BackendV {
    BackendV {
        character: CharacterV { culture: Some(culture), ..b.character },
        log: b.log.push(spec_raised_line(culture)),
    }
}

/// The faith line: during generation the record belongs to a newborn, so a
/// first faith is the parents' worship and a change their conversion.
pub open spec fn spec_faith_line(first_faith: bool, faith: Faith) -> Seq<char> {
    if first_faith {
        "Your parents worshipped "@ + spec_faith_name(faith) + "."@
    } else {
        "Your parents converted to "@ + spec_faith_name(faith) + "."@
    }
}

pub open spec fn spec_set_faith(b: BackendV, faith: Faith) -> BackendV {
    BackendV {
        character: CharacterV { faith: Some(faith), ..b.character },
        log: b.log.push(spec_faith_line(b.character.faith is None, faith)),
    }
}

/// The affiliation line: the first affiliation is the parents', a change
/// is joined, and setting the same affiliation again says nothing.
pub open spec fn spec_affiliation_log(b: BackendV, affiliation: Affiliation) -> Seq<Seq<char>> {
    match b.character.affiliation {
        Option::None => b.log.push(
            "Your parents were members of the "@ + spec_affiliation_name(affiliation) + "."@,
        ),
        Option::Some(old_a) => if old_a != affiliation {
            b.log.push("You joined the "@ + spec_affiliation_name(affiliation) + "."@)
        } else {
            b.log
        },
    }
}

pub open spec fn spec_set_affiliation(b: BackendV, affiliation: Affiliation) -> BackendV {
    BackendV {
        character: CharacterV { affiliation: Some(affiliation), ..b.character },
        log: spec_affiliation_log(b, affiliation),
    }
}

pub open spec fn spec_careers_contain(s: Seq<Career>, c: Career) -> bool {
    exists|i: int| 0 <= i < s.len() && spec_career_eq(s[i], c)
}

/// The career line for a character who already has a parents' career: the
/// first career is an apprenticeship, a repeated one mastery, any other a
/// time spent working.
pub open spec fn spec_career_line(b: BackendV, career: Career) -> Seq<char> {
    if b.character.careers.len() == 0 {
        "You were apprenticed as a "@ + career.name@ + ", granting you the skills of a "@
            + spec_class_name(career.class) + "."@
    } else if spec_careers_contain(b.character.careers, career) {
        "You continued working as a "@ + career.name@ + ", granting you the skills of a master "@
            + spec_class_name(career.class) + "."@
    } else {
        "You spent a time working as a "@ + career.name@ + ", granting you the skills of a "@
            + spec_class_name(career.class) + "."@
    }
}

/// Setting a career never overwrites: the very first career recorded is
/// the parents', and every later one is appended to the character's own.
pub open spec fn spec_set_career(b: BackendV, career: Career) -> BackendV {
    if b.character.parents_career is None {
        BackendV {
            character: CharacterV { parents_career: Some(career), ..b.character },
            log: b.log.push("Your parents were "@ + career.name@ + "s."@),
        }
    } else {
        BackendV {
            character: CharacterV { careers: b.character.careers.push(career), ..b.character },
            log: b.log.push(spec_career_line(b, career)),
        }
    }
}

/// The rank line narrates the change against the rank held before, using
/// the raw value asked for, not the clamped one.
pub open spec fn spec_rank_log(b: BackendV, rank: i8) -> Seq<Seq<char>> {
    match b.character.rank {
        Option::None => b.log.push(
            "Your parents lived life at rank "@ + dec_int(rank as int) + "."@,
        ),
        Option::Some(i) => {
            let diff = rank - i;
            if diff == 0 {
                b.log
            } else if diff == 1 {
                b.log.push("You gained a rank."@)
            } else if diff == -1 {
                b.log.push("You fell a rank."@)
            } else if diff > 0 {
                b.log.push("You gained "@ + dec_int(diff) + " ranks."@)
            } else {
                b.log.push("You fell "@ + dec_int(-diff) + " ranks."@)
            }
        },
    }
}

/// Writing a rank narrates the change and stores the value clamped to
/// zero through nine, whatever magnitude was passed in.
pub open spec fn spec_set_rank(b: BackendV, rank: i8) -> BackendV {
    BackendV {
        character: CharacterV { rank: Some(spec_clamp_rank(rank)), ..b.character },
        log: spec_rank_log(b, rank),
    }
}

pub open spec fn spec_log(b: BackendV, text: Seq<char>) -> BackendV {
    BackendV { character: b.character, log: b.log.push(text) }
}

/// Every rank ever stored lies between zero and nine, regardless of the
/// magnitude of the value passed in.
pub proof fn lemma_rank_always_clamped(b: BackendV, rank: i8)
    ensures
        spec_set_rank(b, rank).character.rank matches Some(r) && 0 <= r <= 9,
        b.inv() ==> spec_set_rank(b, rank).inv(),
{
}

pub fn career_eq(a: &Career, b: &Career) -> (r: bool)
    ensures
        r == spec_career_eq(*a, *b),
{
    str_eq(a.name, b.name) && a.class == b.class
}

impl BaseBackend {
    /// A backend over a blank character with an empty log.
    pub fn new() -> (b: BaseBackend)
        ensures
            b@.inv(),
            b@.character.rank is None,
            b@.character.parents_career is None,
            b@.character.affiliation is None,
            b@.character.faith is None,
            b@.character.culture is None,
            b@.character.birth_location is None,
            b@.character.omen is None,
            b@.character.careers =~= Seq::<Career>::empty(),
            b@.character.traits =~= Seq::<Seq<char>>::empty(),
            forall|i: int| 0 <= i < STAT_COUNT ==> #[trigger] b@.character.stats[i] is None,
            b@.log =~= Seq::<Seq<char>>::empty(),
    {
        let b = BaseBackend { character: Character::new(), log_fifo: Vec::new() };
        proof {
            assert(b@.log =~= Seq::<Seq<char>>::empty());
        }
        b
    }

    /// Stores a rolled stat, raised to one if the roll fell below one.
    pub fn set_stat<T: DiceRoll>(&mut self, stat: Stat, roll: &T)
        requires
            roll.valid(),
            old(self)@.inv(),
        ensures
            final(self)@ == spec_set_stat(old(self)@, stat, roll.spec_result()),
            final(self)@.inv(),
    {
        proof {
            roll.lemma_result_in_range();
        }
        let v = roll.result();
        let v = if v < 1 {
            1
        } else {
            v
        };
        let idx = crate::character::stat_index(stat);
        self.character.stats.set(idx, Some(v));
        proof {
            assert(self@ =~= spec_set_stat(old(self)@, stat, roll.spec_result()));
        }
    }

    pub fn get_stat(&self, stat: Stat) -> (r: Option<i8>)
        requires
            self@.inv(),
        ensures
            r == self@.character.stat(stat),
    {
        let idx = crate::character::stat_index(stat);
        self.character.stats[idx]
    }

    pub fn gain_trait(&mut self, description: String)
        requires
            old(self)@.inv(),
        ensures
            final(self)@ == spec_gain_trait(old(self)@, description@),
            final(self)@.inv(),
    {
        self.character.traits.push(description);
        proof {
            assert(self@.character.traits =~= old(self)@.character.traits.push(description@));
            assert(self@ =~= spec_gain_trait(old(self)@, description@));
        }
    }

    pub fn get_omen(&self) -> (r: Option<BirthOmen>)
        ensures
            r == self@.character.omen,
    {
        self.character.omen
    }

    pub fn set_omen(&mut self, omen: BirthOmen)
        requires
            old(self)@.inv(),
        ensures
            final(self)@ == spec_set_omen(old(self)@, omen),
            final(self)@.inv(),
    {
        self.character.omen = Some(omen);
        proof {
            assert(self@ =~= spec_set_omen(old(self)@, omen));
        }
    }

    /// Appends a line to the narration log.
    pub fn log(&mut self, text: String)
        requires
            old(self)@.inv(),
        ensures
            final(self)@ == spec_log(old(self)@, text@),
            final(self)@.inv(),
    {
        self.log_fifo.push(text);
        proof {
            assert(self@.log =~= old(self)@.log.push(text@));
            assert(self@ =~= spec_log(old(self)@, text@));
        }
    }

    pub fn set_birth_location(&mut self, location: Location)
        requires
            old(self)@.inv(),
        ensures
            final(self)@ == spec_set_birth_location(old(self)@, location),
            final(self)@.inv(),
    {
        let mut line = String::from_str("You were born in ");
        line.append(location.name);
        line.append(".");
        self.log(line);
        self.character.birth_location = Some(location);
        proof {
            assert(self@ =~= spec_set_birth_location(old(self)@, location));
        }
    }

    pub fn set_culture(&mut self, culture: Culture)
        requires
            old(self)@.inv(),
        ensures
            final(self)@ == spec_set_culture(old(self)@, culture),
            final(self)@.inv(),
    {
        let mut line = String::from_str("You were raised ");
        line.append(culture.name());
        line.append(".");
        self.log(line);
        self.character.culture = Some(culture);
        proof {
            assert(self@ =~= spec_set_culture(old(self)@, culture));
        }
    }

    pub fn set_faith(&mut self, faith: Faith)
        requires
            old(self)@.inv(),
        ensures
            final(self)@ == spec_set_faith(old(self)@, faith),
            final(self)@.inv(),
    {
        let mut line = if self.character.faith.is_none() {
            String::from_str("Your parents worshipped ")
        } else {
            String::from_str("Your parents converted to ")
        };
        line.append(faith.name());
        line.append(".");
        self.log(line);
        self.character.faith = Some(faith);
        proof {
            assert(self@ =~= spec_set_faith(old(self)@, faith));
        }
    }

    pub fn set_affiliation(&mut self, affiliation: Affiliation)
        requires
            old(self)@.inv(),
        ensures
            final(self)@ == spec_set_affiliation(old(self)@, affiliation),
            final(self)@.inv(),
    {
        match self.character.affiliation {
            Option::None => {
                let mut line = String::from_str("Your parents were members of the ");
                line.append(affiliation.name());
                line.append(".");
                self.log(line);
            },
            Option::Some(old_a) => {
                if old_a != affiliation {
                    let mut line = String::from_str("You joined the ");
                    line.append(affiliation.name());
                    line.append(".");
                    self.log(line);
                }
            },
        }
        self.character.affiliation = Some(affiliation);
        proof {
            assert(self@ =~= spec_set_affiliation(old(self)@, affiliation));
        }
    }

    /// Appends a career: the very first career recorded becomes the
    /// parents' career, every later one the character's own.
    pub fn set_career(&mut self, career: Career)
        requires
            old(self)@.inv(),
        ensures
            final(self)@ == spec_set_career(old(self)@, career),
            final(self)@.inv(),
    {
        if self.character.parents_career.is_none() {
            let mut line = String::from_str("Your parents were ");
            line.append(career.name);
            line.append("s.");
            self.log(line);
            self.character.parents_career = Some(career);
            proof {
                assert(self@ =~= spec_set_career(old(self)@, career));
            }
            return;
        }
        let already_present = self.careers_contain(&career);
        let num_careers = self.character.careers.len();
        let mut line = if num_careers == 0 {
            String::from_str("You were apprenticed as a ")
        } else if already_present {
            String::from_str("You continued working as a ")
        } else {
            String::from_str("You spent a time working as a ")
        };
        line.append(career.name);
        if num_careers != 0 && already_present {
            line.append(", granting you the skills of a master ");
        } else {
            line.append(", granting you the skills of a ");
        }
        line.append(career.class.name());
        line.append(".");
        self.log(line);
        self.character.careers.push(career);
        proof {
            assert(self@.character.careers =~= old(self)@.character.careers.push(career));
            assert(self@ =~= spec_set_career(old(self)@, career));
        }
    }

    fn careers_contain(&self, career: &Career) -> (r: bool)
        ensures
            r == spec_careers_contain(self@.character.careers, *career),
    {
        let mut i: usize = 0;
        while i < self.character.careers.len()
            invariant
                0 <= i <= self.character.careers@.len(),
                forall|j: int| 0 <= j < i ==> !spec_career_eq(self.character.careers@[j], *career),
            decreases self.character.careers@.len() - i,
        {
            if career_eq(&self.character.careers[i], career) {
                return true;
            }
            i = i + 1;
        }
        false
    }

    /// Narrates the change of rank and stores the new rank clamped to zero
    /// through nine.
    pub fn set_rank(&mut self, rank: i8)
        requires
            old(self)@.inv(),
        ensures
            final(self)@ == spec_set_rank(old(self)@, rank),
            final(self)@.inv(),
    {
        match self.character.rank {
            Option::None => {
                let mut line = String::from_str("Your parents lived life at rank ");
                line.append(dec_i8(rank).as_str());
                line.append(".");
                self.log(line);
            },
            Option::Some(i) => {
                let diff: i16 = rank as i16 - i as i16;
                if diff == 0 {
                } else if diff == 1 {
                    self.log(String::from_str("You gained a rank."));
                } else if diff == -1 {
                    self.log(String::from_str("You fell a rank."));
                } else if diff > 0 {
                    let mut line = String::from_str("You gained ");
                    line.append(dec_i8(diff as i8).as_str());
                    line.append(" ranks.");
                    self.log(line);
                } else {
                    let mut line = String::from_str("You fell ");
                    let abs: u64 = (-diff) as u64;
                    line.append(crate::text::dec_u64(abs).as_str());
                    line.append(" ranks.");
                    self.log(line);
                }
            },
        }
        let clamped = if rank < 0 {
            0
        } else if rank > 9 {
            9
        } else {
            rank
        };
        self.character.rank = Some(clamped);
        proof {
            assert(self@ =~= spec_set_rank(old(self)@, rank));
        }
    }
}

} // verus!
