//! Body sex, as distinct from the mind's gender, and the lossy conversions
//! between the two.

use vstd::prelude::*;
use crate::races::{random_index, Gender};

verus! {

/// The sex of a character's body.
#[derive(Clone, Copy, Debug, PartialEq, Eq, Structural)]
pub enum Sex {
    Male,
    Female,
    Undefined,
}

impl Sex {
    /// The gender a body of this sex presents by default; an undefined sex
    /// maps to the custom gender labelled "None".
    pub fn gender(self) -> (g: Gender)
        ensures
            self is Male ==> g == Gender::Male,
            self is Female ==> g == Gender::Female,
            self is Undefined ==> (g matches Gender::Custom(s) && s@ == "None"@),
    {
        match self {
            Sex::Male => Gender::Male,
            Sex::Female => Gender::Female,
            Sex::Undefined => Gender::Custom("None".to_owned()),
        }
    }

    /// A uniformly random sex among the two common presets.
    pub fn random() -> (r: Sex)
        ensures
            r !is Undefined,
    {
        if random_index(2) == 0 {
            Sex::Male
        } else {
            Sex::Female
        }
    }
}

impl Default for Sex {
    fn default() -> (r: Sex)
        ensures
            r == Sex::Female,
    {
        Sex::Female
    }
}

impl From<Gender> for Sex {
    fn from(value: Gender) -> (r: Sex) {
        match value {
            Gender::Male => Sex::Male,
            Gender::Female => Sex::Female,
            Gender::Custom(_) => Sex::Undefined,
        }
    }
}

impl vstd::std_specs::convert::FromSpecImpl<Gender> for Sex {
    open spec fn obeys_from_spec() -> bool {
        true
    }

    open spec fn from_spec(value: Gender) -> Sex {
        match value {
            Gender::Male => Sex::Male,
            Gender::Female => Sex::Female,
            Gender::Custom(_) => Sex::Undefined,
        }
    }
}

impl From<Sex> for Gender {
    fn from(value: Sex) -> (r: Gender) {
        value.gender()
    }
}

impl vstd::std_specs::convert::FromSpecImpl<Sex> for Gender {
    /// The undefined sex turns into a custom gender holding a string, and a
    /// string cannot be written down in a specification, so this conversion
    /// promises nothing; `Sex::gender` carries the exact contract.
    open spec fn obeys_from_spec() -> bool {
        false
    }

    open spec fn from_spec(value: Sex) -> Gender {
        arbitrary()
    }
}

} // verus!
