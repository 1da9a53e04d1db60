//! The races of the game world, the subset a player may pick, and the
//! gender value attached to a character's mind. Race data is static lookup
//! material; only the lookups themselves are logic.

use vstd::prelude::*;
use rand::Rng;
use crate::dice::SkillLevel;
use crate::skills::{Skill, Skills};

verus! {

/// One uniformly random index below the bound.
///
/// Relies on rand::thread_rng and rand::Rng::gen_range over `0..n`: the
/// result lies in that range; the call panics only on an empty range, which
/// the precondition rules out.
#[verifier::external_body]
pub(crate) fn random_index(n: u8) -> (r: u8)
    requires
        n > 0,
    ensures
        r < n,
{
    rand::thread_rng().gen_range(0..n)
}

/// Every race, playable or not.
#[derive(Clone, Copy, Debug, PartialEq, Eq, Hash, Structural)]
pub enum Race {
    Gazan,
    Nyarnik,
    Totik,
    Lagnam,
    Bug,
}

impl Race {
    /// The skill a member of this race starts with for free, if any:
    /// arboreal gazans climb, amphibious totiks swim.
    pub open spec fn spec_free_skill(self, s: Skill) -> SkillLevel {
        if self is Gazan && s is Climbing {
            SkillLevel::D6
        } else if self is Totik && s is Swimming {
            SkillLevel::D6
        } else {
            SkillLevel::D4_2
        }
    }

    /// Whether the race's body grows fur.
    pub fn has_fur(self) -> (r: bool)
        ensures
            r == (self is Gazan || self is Lagnam),
    {
        matches!(self, Race::Gazan | Race::Lagnam)
    }

    /// The skills every member of the race starts with.
    pub fn free_skills(self) -> (r: Skills)
        ensures
            r.wf(),
            forall|s: Skill| r.spec_get(s) == self.spec_free_skill(s),
    {
        let mut skills = Skills::new();
        match self {
            Race::Gazan => {
                skills.insert(Skill::Climbing, SkillLevel::D6);
            },
            Race::Totik => {
                skills.insert(Skill::Swimming, SkillLevel::D6);
            },
            _ => {},
        }
        skills
    }

    /// Every race, in presentation order.
    pub fn iterator() -> (r: Vec<Race>)
        ensures
            r@ =~= seq![
                Race::Gazan,
                Race::Lagnam,
                Race::Nyarnik,
                Race::Totik,
                Race::Bug,
            ],
    {
        let mut v: Vec<Race> = Vec::new();
        v.push(Race::Gazan);
        v.push(Race::Lagnam);
        v.push(Race::Nyarnik);
        v.push(Race::Totik);
        v.push(Race::Bug);
        v
    }

    pub open spec fn spec_name(self) -> Seq<char> {
        match self {
            Race::Gazan => "gazan"@,
            Race::Nyarnik => "nyarnik"@,
            Race::Totik => "totik"@,
            Race::Lagnam => "lagnam"@,
            Race::Bug => "Bug"@,
        }
    }

    /// Display label of the race.
    pub fn name(self) -> (r: &'static str)
        ensures
            r@ == self.spec_name(),
    {
        match self {
            Race::Gazan => "gazan",
            Race::Nyarnik => "nyarnik",
            Race::Totik => "totik",
            Race::Lagnam => "lagnam",
            Race::Bug => "Bug",
        }
    }

    pub open spec fn spec_from_index(i: int) -> Race {
        if i == 0 {
            Race::Gazan
        } else if i == 1 {
            Race::Nyarnik
        } else if i == 2 {
            Race::Totik
        } else if i == 3 {
            Race::Lagnam
        } else {
            Race::Bug
        }
    }

    /// The race drawn for a given index; the random constructor feeds this.
    pub fn from_index(i: u8) -> (r: Race)
        requires
            i < 5,
        ensures
            r == Race::spec_from_index(i as int),
    {
        match i {
            0 => Race::Gazan,
            1 => Race::Nyarnik,
            2 => Race::Totik,
            3 => Race::Lagnam,
            _ => Race::Bug,
        }
    }

    /// A uniformly random race.
    pub fn random() -> (r: Race) {
        Race::from_index(random_index(5))
    }
}

/// The races a player may pick at character creation; the cycle order is
/// the order the creation screen steps through.
#[derive(Clone, Copy, Debug, PartialEq, Eq, Structural)]
pub enum PlayableRace {
    Gazan,
    Nyarnik,
    Totik,
    Lagnam,
}

impl PlayableRace {
    pub open spec fn spec_next(self) -> PlayableRace {
        match self {
            PlayableRace::Gazan => PlayableRace::Nyarnik,
            PlayableRace::Nyarnik => PlayableRace::Totik,
            PlayableRace::Totik => PlayableRace::Lagnam,
            PlayableRace::Lagnam => PlayableRace::Gazan,
        }
    }

    pub open spec fn spec_prev(self) -> PlayableRace {
        match self {
            PlayableRace::Gazan => PlayableRace::Lagnam,
            PlayableRace::Nyarnik => PlayableRace::Gazan,
            PlayableRace::Totik => PlayableRace::Nyarnik,
            PlayableRace::Lagnam => PlayableRace::Totik,
        }
    }

    /// The next playable race, cycling around at the end.
    pub fn next(self) -> (r: PlayableRace)
        ensures
            r == self.spec_next(),
    {
        match self {
            PlayableRace::Gazan => PlayableRace::Nyarnik,
            PlayableRace::Nyarnik => PlayableRace::Totik,
            PlayableRace::Totik => PlayableRace::Lagnam,
            PlayableRace::Lagnam => PlayableRace::Gazan,
        }
    }

    /// The previous playable race, cycling around at the start.
    pub fn prev(self) -> (r: PlayableRace)
        ensures
            r == self.spec_prev(),
    {
        match self {
            PlayableRace::Gazan => PlayableRace::Lagnam,
            PlayableRace::Nyarnik => PlayableRace::Gazan,
            PlayableRace::Totik => PlayableRace::Nyarnik,
            PlayableRace::Lagnam => PlayableRace::Totik,
        }
    }

    pub open spec fn spec_name(self) -> Seq<char> {
        match self {
            PlayableRace::Gazan => "Gazan"@,
            PlayableRace::Nyarnik => "Nyarnik"@,
            PlayableRace::Totik => "Totik"@,
            PlayableRace::Lagnam => "Lagnam"@,
        }
    }

    /// Display label of the playable race.
    pub fn name(self) -> (r: &'static str)
        ensures
            r@ == self.spec_name(),
    {
        match self {
            PlayableRace::Gazan => "Gazan",
            PlayableRace::Nyarnik => "Nyarnik",
            PlayableRace::Totik => "Totik",
            PlayableRace::Lagnam => "Lagnam",
        }
    }

    /// The playable counterpart of a race. Only playable races may be
    /// handed in: there is no playable bug.
    pub fn from_race(race: Race) -> (r: PlayableRace)
        requires
            race !is Bug,
        ensures
            r == match race {
                Race::Gazan => PlayableRace::Gazan,
                Race::Nyarnik => PlayableRace::Nyarnik,
                Race::Totik => PlayableRace::Totik,
                _ => PlayableRace::Lagnam,
            },
    {
        match race {
            Race::Gazan => PlayableRace::Gazan,
            Race::Nyarnik => PlayableRace::Nyarnik,
            Race::Totik => PlayableRace::Totik,
            Race::Lagnam => PlayableRace::Lagnam,
            Race::Bug => unreached(),
        }
    }

    /// A uniformly random playable race.
    pub fn random() -> (r: PlayableRace) {
        match random_index(4) {
            0 => PlayableRace::Gazan,
            1 => PlayableRace::Nyarnik,
            2 => PlayableRace::Totik,
            _ => PlayableRace::Lagnam,
        }
    }
}

impl From<PlayableRace> for Race {
    fn from(value: PlayableRace) -> (r: Race) {
        match value {
            PlayableRace::Gazan => Race::Gazan,
            PlayableRace::Nyarnik => Race::Nyarnik,
            PlayableRace::Totik => Race::Totik,
            PlayableRace::Lagnam => Race::Lagnam,
        }
    }
}

impl vstd::std_specs::convert::FromSpecImpl<PlayableRace> for Race {
    open spec fn obeys_from_spec() -> bool {
        true
    }

    open spec fn from_spec(value: PlayableRace) -> Race {
        match value {
            PlayableRace::Gazan => Race::Gazan,
            PlayableRace::Nyarnik => Race::Nyarnik,
            PlayableRace::Totik => Race::Totik,
            PlayableRace::Lagnam => Race::Lagnam,
        }
    }
}

/// A character's gender: one of the two common presets, or free-form text.
#[derive(Clone, Debug, PartialEq, Eq)]
pub enum Gender {
    Male,
    Female,
    Custom(String),
}

} // verus!
