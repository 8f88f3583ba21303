use crate::dungeon::ChallengeBox;
use crate::hero::{Attribute, Effect, Skill};
use vstd::prelude::*;
use vstd::string::*;

verus! {

/// A phase of play in which a skill or a heroic feat may be used.
#[derive(Debug, PartialEq, Eq, Structural, Clone, Copy)]
pub enum Encounter {
    Combat,
    Peril,
    Boss,
}

impl Encounter {
    /// The phase's name.
    pub fn to_text(&self) -> (r: String)
        ensures
            r@ == encounter_text(*self),
    {
        match self {
            Encounter::Combat => String::from_str("Combat"),
            Encounter::Peril => String::from_str("Peril"),
            Encounter::Boss => String::from_str("Boss"),
        }
    }
}

/// The phase's name.
pub open spec fn encounter_text(e: Encounter) -> Seq<char> {
    match e {
        Encounter::Combat => "Combat"@,
        Encounter::Peril => "Peril"@,
        Encounter::Boss => "Boss"@,
    }
}

/// An obstacle card: the player meets one of two sets of challenges.
pub struct Peril {
    pub name: String,
    pub choice_one: Vec<ChallengeBox>,
    pub choice_one_time_cost: Option<i8>,
    pub choice_two: Vec<ChallengeBox>,
    pub choice_two_time_cost: Option<i8>,
    pub xp_reward: i8,
    pub item_reward: Vec<Attribute>,
    pub skill_reward: Skill,
}

/// A monster card.
pub struct Combat {
    pub name: String,
    pub special_ability: Effect,
    pub challenges: Vec<ChallengeBox>,
    pub xp_reward: i8,
    pub item_reward: Vec<Attribute>,
    pub skill_reward: Skill,
}

} // verus!
