use crate::hero::{attributes_text, attributes_to_text, kind_text, prefixed, Attribute, AttributeKind, AttributeType};
use crate::text::{int_text, int_to_text};
use std::collections::HashMap;
use vstd::prelude::*;
use vstd::string::*;

verus! {

/// One box of a challenge: dice of a kind (any kind where `None`) whose
/// total must reach `total_value`, or the listed consequences are suffered.
pub struct ChallengeBox {
    pub dice_type: Option<AttributeType>,
    pub total_value: i8,
    /// Whether a single die has to reach the total.
    pub single_dice: bool,
    /// Whether the box has to be filled before the others.
    pub priority: bool,
    pub consequences: Vec<Attribute>,
}

/// What each box asks for: the kind of dice (any kind where `None`), the
/// total to reach, whether a single die has to reach it, and whether the box
/// comes first.
pub open spec fn box_rules(s: Seq<ChallengeBox>) -> Seq<(Option<AttributeKind>, i8, bool, bool)> {
    s.map_values(
        |c: ChallengeBox|
            (
                match c.dice_type {
                    Some(t) => Some(t@),
                    None => None,
                },
                c.total_value,
                c.single_dice,
                c.priority,
            ),
    )
}

/// How a challenge box is written ("*PRIORITY* 1 x Magic \u{2265} 3 OR
/// 1 x Health"); nothing where one of its consequences cannot be written.
pub open spec fn challenge_text(c: ChallengeBox) -> Option<Seq<char>> {
    let head = (if c.priority {
        "*PRIORITY* "@
    } else {
        Seq::<char>::empty()
    }) + (if c.single_dice {
        "1 x "@
    } else {
        "Many "@
    }) + match c.dice_type {
        Some(t) => kind_text(t@),
        None => "any"@,
    } + " \u{2265} "@ + int_text(c.total_value as int) + " OR "@;
    if c.consequences@.len() == 0 {
        Some(head + "nothing"@)
    } else {
        prefixed(head, attributes_text(c.consequences@))
    }
}

impl ChallengeBox {
    /// The box written out, as `challenge_text` gives it.
    pub fn to_text(&self) -> (r: Option<String>)
        ensures
            r is Some == challenge_text(*self) is Some,
            r is Some ==> r->Some_0@ == challenge_text(*self)->Some_0,
    {
        let mut out = String::new();
        if self.priority {
            out.append("*PRIORITY* ");
        }
        if self.single_dice {
            out.append("1 x ");
        } else {
            out.append("Many ");
        }
        match &self.dice_type {
            Some(t) => {
                let k = t.to_text();
                out.append(k.as_str());
            },
            None => out.append("any"),
        }
        out.append(" \u{2265} ");
        let n = int_to_text(self.total_value as i64);
        out.append(n.as_str());
        out.append(" OR ");
        if self.consequences.len() == 0 {
            out.append("nothing");
            Some(out)
        } else {
            match attributes_to_text(&self.consequences) {
                Some(t) => {
                    out.append(t.as_str());
                    Some(out)
                },
                None => None,
            }
        }
    }
}

/// A dungeon card: its challenges at each of its three levels.
pub struct Dungeon {
    pub name: String,
    pub difficulty: usize,
    pub peril_challenges: HashMap<i8, Vec<ChallengeBox>>,
    pub combat_challenges: HashMap<i8, Vec<ChallengeBox>>,
}

impl Dungeon {
    /// The Phoenix's Den dungeon card.
    pub fn get_phoenix_den() -> (r: Dungeon)
        ensures
            r.name@ == "Phoenix's Den"@,
            r.difficulty == 2,
            r.peril_challenges@.dom() =~= set![1i8, 2, 3],
            box_rules(r.peril_challenges@[1i8]@) =~= seq![(None, 3i8, true, true)],
            box_rules(r.peril_challenges@[2i8]@) =~= seq![(None, 5i8, true, false)],
            box_rules(r.peril_challenges@[3i8]@) =~= seq![(None, 6i8, true, false)],
            r.combat_challenges@.dom() =~= set![1i8, 2, 3],
            box_rules(r.combat_challenges@[1i8]@) =~= seq![(Some(AttributeKind::Magic), 3i8, true, false), (Some(AttributeKind::Strength), 3, true, false)],
            box_rules(r.combat_challenges@[2i8]@) =~= seq![(Some(AttributeKind::Agility), 3i8, true, true)],
            box_rules(r.combat_challenges@[3i8]@) =~= seq![(Some(AttributeKind::Strength), 4i8, true, false), (Some(AttributeKind::Strength), 4, true, false)],
    {
        broadcast use vstd::std_specs::hash::group_hash_axioms;

        let mut peril_challenges = HashMap::new();
        peril_challenges.insert(
            1,
            vec![ChallengeBox {
                dice_type: None,
                total_value: 3,
                single_dice: true,
                priority: true,
                consequences: Vec::new(),
            }],
        );
        peril_challenges.insert(
            2,
            vec![ChallengeBox {
                dice_type: None,
                total_value: 5,
                single_dice: true,
                priority: false,
                consequences: vec![
                    Attribute::of_quantity(AttributeType::Health, 1),
                    Attribute::of_quantity(AttributeType::Time, 1),
                ],
            }],
        );
        peril_challenges.insert(
            3,
            vec![ChallengeBox {
                dice_type: None,
                total_value: 6,
                single_dice: true,
                priority: false,
                consequences: vec![Attribute::of_quantity(AttributeType::Time, 2)],
            }],
        );
        let mut combat_challenges = HashMap::new();
        combat_challenges.insert(
            1,
            vec![
                ChallengeBox {
                    dice_type: Some(AttributeType::Magic),
                    total_value: 3,
                    single_dice: true,
                    priority: false,
                    consequences: vec![Attribute::of_quantity(AttributeType::Health, 1)],
                },
                ChallengeBox {
                    dice_type: Some(AttributeType::Strength),
                    total_value: 3,
                    single_dice: true,
                    priority: false,
                    consequences: vec![Attribute::of_quantity(AttributeType::Time, 2)],
                },
            ],
        );
        combat_challenges.insert(
            2,
            vec![ChallengeBox {
                dice_type: Some(AttributeType::Agility),
                total_value: 3,
                single_dice: true,
                priority: true,
                consequences: Vec::new(),
            }],
        );
        combat_challenges.insert(
            3,
            vec![
                ChallengeBox {
                    dice_type: Some(AttributeType::Strength),
                    total_value: 4,
                    single_dice: true,
                    priority: false,
                    consequences: vec![Attribute::of_quantity(AttributeType::Health, 2)],
                },
                ChallengeBox {
                    dice_type: Some(AttributeType::Strength),
                    total_value: 4,
                    single_dice: true,
                    priority: false,
                    consequences: vec![Attribute::of_quantity(AttributeType::Time, 2)],
                },
            ],
        );
        Dungeon {
            name: String::from_str("Phoenix's Den"),
            difficulty: 2,
            peril_challenges,
            combat_challenges,
        }
    }

    /// The Dragon's Cave dungeon card.
    pub fn get_dragons_cave() -> (r: Dungeon)
        ensures
            r.name@ == "Dragon's Cave"@,
            r.difficulty == 1,
            r.peril_challenges@.dom() =~= set![1i8, 2, 3],
            box_rules(r.peril_challenges@[1i8]@) =~= seq![(None, 2i8, true, true)],
            box_rules(r.peril_challenges@[2i8]@) =~= seq![(None, 6i8, true, false)],
            box_rules(r.peril_challenges@[3i8]@) =~= seq![(None, 5i8, true, true)],
            r.combat_challenges@.dom() =~= set![1i8, 2, 3],
            box_rules(r.combat_challenges@[1i8]@) =~= seq![(Some(AttributeKind::Strength), 3i8, true, false)],
            box_rules(r.combat_challenges@[2i8]@) =~= seq![(Some(AttributeKind::Magic), 5i8, true, false)],
            box_rules(r.combat_challenges@[3i8]@) =~= seq![(Some(AttributeKind::Strength), 10i8, false, true)],
    {
        broadcast use vstd::std_specs::hash::group_hash_axioms;

        let mut peril_challenges = HashMap::new();
        peril_challenges.insert(
            1,
            vec![ChallengeBox {
                dice_type: None,
                total_value: 2,
                single_dice: true,
                priority: true,
                consequences: Vec::new(),
            }],
        );
        peril_challenges.insert(
            2,
            vec![ChallengeBox {
                dice_type: None,
                total_value: 6,
                single_dice: true,
                priority: false,
                consequences: vec![Attribute::of_quantity(AttributeType::Health, 1)],
            }],
        );
        peril_challenges.insert(
            3,
            vec![ChallengeBox {
                dice_type: None,
                total_value: 5,
                single_dice: true,
                priority: true,
                consequences: Vec::new(),
            }],
        );
        let mut combat_challenges = HashMap::new();
        combat_challenges.insert(
            1,
            vec![ChallengeBox {
                dice_type: Some(AttributeType::Strength),
                total_value: 3,
                single_dice: true,
                priority: false,
                consequences: vec![Attribute::of_quantity(AttributeType::Health, 1)],
            }],
        );
        combat_challenges.insert(
            2,
            vec![ChallengeBox {
                dice_type: Some(AttributeType::Magic),
                total_value: 5,
                single_dice: true,
                priority: false,
                consequences: vec![Attribute::of_quantity(AttributeType::Health, 2)],
            }],
        );
        combat_challenges.insert(
            3,
            vec![ChallengeBox {
                dice_type: Some(AttributeType::Strength),
                total_value: 10,
                single_dice: false,
                priority: true,
                consequences: Vec::new(),
            }],
        );

        Dungeon {
            name: String::from_str("Dragon's Cave"),
            difficulty: 1,
            peril_challenges,
            combat_challenges,
        }
    }

    /// The Hydra's Reef dungeon card.
    pub fn get_hydras_reef() -> (r: Dungeon)
        ensures
            r.name@ == "Hydra's Reef"@,
            r.difficulty == 2,
            r.peril_challenges@.dom() =~= set![1i8, 2, 3],
            box_rules(r.peril_challenges@[1i8]@) =~= seq![(None, 5i8, true, false)],
            box_rules(r.peril_challenges@[2i8]@) =~= seq![(None, 3i8, true, true)],
            box_rules(r.peril_challenges@[3i8]@) =~= seq![(None, 5i8, true, true)],
            r.combat_challenges@.dom() =~= set![1i8, 2, 3],
            box_rules(r.combat_challenges@[1i8]@) =~= seq![(Some(AttributeKind::Agility), 3i8, true, false)],
            box_rules(r.combat_challenges@[2i8]@) =~= seq![(Some(AttributeKind::Agility), 5i8, true, false), (Some(AttributeKind::Strength), 5, true, false)],
            box_rules(r.combat_challenges@[3i8]@) =~= seq![(Some(AttributeKind::Magic), 5i8, true, false)],
    {
        broadcast use vstd::std_specs::hash::group_hash_axioms;

        let mut peril_challenges = HashMap::new();
        peril_challenges.insert(
            1,
            vec![ChallengeBox {
                dice_type: None,
                total_value: 5,
                single_dice: true,
                priority: false,
                consequences: vec![
                    Attribute::of_quantity(AttributeType::Health, 1),
                    Attribute::of_quantity(AttributeType::Time, 1),
                ],
            }],
        );
        peril_challenges.insert(
            2,
            vec![ChallengeBox {
                dice_type: None,
                total_value: 3,
                single_dice: true,
                priority: true,
                consequences: Vec::new(),
            }],
        );
        peril_challenges.insert(
            3,
            vec![ChallengeBox {
                dice_type: None,
                total_value: 5,
                single_dice: true,
                priority: true,
                consequences: Vec::new(),
            }],
        );
        let mut combat_challenges = HashMap::new();
        combat_challenges.insert(
            1,
            vec![ChallengeBox {
                dice_type: Some(AttributeType::Agility),
                total_value: 3,
                single_dice: true,
                priority: false,
                consequences: vec![Attribute::of_quantity(AttributeType::Health, 1)],
            }],
        );
        combat_challenges.insert(
            2,
            vec![
                ChallengeBox {
                    dice_type: Some(AttributeType::Agility),
                    total_value: 5,
                    single_dice: true,
                    priority: false,
                    consequences: vec![Attribute::of_quantity(AttributeType::Health, 1)],
                },
                ChallengeBox {
                    dice_type: Some(AttributeType::Strength),
                    total_value: 5,
                    single_dice: true,
                    priority: false,
                    consequences: vec![
                        Attribute::of_quantity(AttributeType::Health, 1),
                        Attribute::of_quantity(AttributeType::Time, 1),
                    ],
                },
            ],
        );
        combat_challenges.insert(
            3,
            vec![ChallengeBox {
                dice_type: Some(AttributeType::Magic),
                total_value: 5,
                single_dice: true,
                priority: false,
                consequences: vec![
                    Attribute::of_quantity(AttributeType::Health, 1),
                    Attribute::of_quantity(AttributeType::Time, 1),
                ],
            }],
        );

        Dungeon {
            name: String::from_str("Hydra's Reef"),
            difficulty: 2,
            peril_challenges,
            combat_challenges,
        }
    }

    /// The Yeti's Cavern dungeon card.
    pub fn get_yetis_cavern() -> (r: Dungeon)
        ensures
            r.name@ == "Yeti's Cavern"@,
            r.difficulty == 2,
            r.peril_challenges@.dom() =~= set![1i8, 2, 3],
            box_rules(r.peril_challenges@[1i8]@) =~= seq![(None, 4i8, true, true)],
            box_rules(r.peril_challenges@[2i8]@) =~= seq![(None, 5i8, true, false)],
            box_rules(r.peril_challenges@[3i8]@) =~= seq![(None, 4i8, true, true)],
            r.combat_challenges@.dom() =~= set![1i8, 2, 3],
            box_rules(r.combat_challenges@[1i8]@) =~= seq![(Some(AttributeKind::Magic), 3i8, true, false), (Some(AttributeKind::Magic), 4, true, false)],
            box_rules(r.combat_challenges@[2i8]@) =~= seq![(Some(AttributeKind::Strength), 5i8, true, false)],
            box_rules(r.combat_challenges@[3i8]@) =~= seq![(Some(AttributeKind::Strength), 3i8, true, true), (Some(AttributeKind::Strength), 3, true, true)],
    {
        broadcast use vstd::std_specs::hash::group_hash_axioms;

        let mut peril_challenges = HashMap::new();
        peril_challenges.insert(
            1,
            vec![ChallengeBox {
                dice_type: None,
                total_value: 4,
                single_dice: true,
                priority: true,
                consequences: vec![Attribute::of_quantity(AttributeType::Time, 1)],
            }],
        );
        peril_challenges.insert(
            2,
            vec![ChallengeBox {
                dice_type: None,
                total_value: 5,
                single_dice: true,
                priority: false,
                consequences: vec![
                    Attribute::of_quantity(AttributeType::Health, 1),
                    Attribute::of_quantity(AttributeType::Time, 1),
                ],
            }],
        );
        peril_challenges.insert(
            3,
            vec![ChallengeBox {
                dice_type: None,
                total_value: 4,
                single_dice: true,
                priority: true,
                consequences: vec![Attribute::of_quantity(AttributeType::Health, 1)],
            }],
        );
        let mut combat_challenges = HashMap::new();
        combat_challenges.insert(
            1,
            vec![
                ChallengeBox {
                    dice_type: Some(AttributeType::Magic),
                    total_value: 3,
                    single_dice: true,
                    priority: false,
                    consequences: vec![Attribute::of_quantity(AttributeType::Time, 1)],
                },
                ChallengeBox {
                    dice_type: Some(AttributeType::Magic),
                    total_value: 4,
                    single_dice: true,
                    priority: false,
                    consequences: vec![Attribute::of_quantity(AttributeType::Time, 1)],
                },
            ],
        );
        combat_challenges.insert(
            2,
            vec![ChallengeBox {
                dice_type: Some(AttributeType::Strength),
                total_value: 5,
                single_dice: true,
                priority: false,
                consequences: vec![Attribute::of_quantity(AttributeType::Health, 2)],
            }],
        );
        combat_challenges.insert(
            3,
            vec![
                ChallengeBox {
                    dice_type: Some(AttributeType::Strength),
                    total_value: 3,
                    single_dice: true,
                    priority: true,
                    consequences: vec![Attribute::of_quantity(AttributeType::Health, 1)],
                },
                ChallengeBox {
                    dice_type: Some(AttributeType::Strength),
                    total_value: 3,
                    single_dice: true,
                    priority: true,
                    consequences: vec![Attribute::of_quantity(AttributeType::Health, 1)],
                },
            ],
        );

        Dungeon {
            name: String::from_str("Yeti's Cavern"),
            difficulty: 2,
            peril_challenges,
            combat_challenges,
        }
    }

    /// The Lich's Tomb dungeon card.
    pub fn get_lichs_tomb() -> (r: Dungeon)
        ensures
            r.name@ == "Lich's Tomb"@,
            r.difficulty == 3,
            r.peril_challenges@.dom() =~= set![1i8, 2, 3],
            box_rules(r.peril_challenges@[1i8]@) =~= seq![(None, 4i8, true, true)],
            box_rules(r.peril_challenges@[2i8]@) =~= seq![(None, 6i8, true, false)],
            box_rules(r.peril_challenges@[3i8]@) =~= seq![(None, 4i8, true, true)],
            r.combat_challenges@.dom() =~= set![1i8, 2, 3],
            box_rules(r.combat_challenges@[1i8]@) =~= seq![(Some(AttributeKind::Magic), 2i8, true, true), (Some(AttributeKind::Strength), 5, true, false)],
            box_rules(r.combat_challenges@[2i8]@) =~= seq![(Some(AttributeKind::Magic), 3i8, true, true)],
            box_rules(r.combat_challenges@[3i8]@) =~= seq![(Some(AttributeKind::Magic), 10i8, false, false)],
    {
        broadcast use vstd::std_specs::hash::group_hash_axioms;

        let mut peril_challenges = HashMap::new();
        peril_challenges.insert(
            1,
            vec![ChallengeBox {
                dice_type: None,
                total_value: 4,
                single_dice: true,
                priority: true,
                consequences: Vec::new(),
            }],
        );
        peril_challenges.insert(
            2,
            vec![ChallengeBox {
                dice_type: None,
                total_value: 6,
                single_dice: true,
                priority: false,
                consequences: vec![
                    Attribute::of_quantity(AttributeType::Health, 1),
                    Attribute::of_quantity(AttributeType::Time, 1),
                ],
            }],
        );
        peril_challenges.insert(
            3,
            vec![ChallengeBox {
                dice_type: None,
                total_value: 4,
                single_dice: true,
                priority: true,
                consequences: vec![Attribute::of_quantity(AttributeType::Health, 1)],
            }],
        );
        let mut combat_challenges = HashMap::new();
        combat_challenges.insert(
            1,
            vec![
                ChallengeBox {
                    dice_type: Some(AttributeType::Magic),
                    total_value: 2,
                    single_dice: true,
                    priority: true,
                    consequences: Vec::new(),
                },
                ChallengeBox {
                    dice_type: Some(AttributeType::Strength),
                    total_value: 5,
                    single_dice: true,
                    priority: false,
                    consequences: vec![Attribute::of_quantity(AttributeType::Time, 2)],
                },
            ],
        );
        combat_challenges.insert(
            2,
            vec![ChallengeBox {
                dice_type: Some(AttributeType::Magic),
                total_value: 3,
                single_dice: true,
                priority: true,
                consequences: Vec::new(),
            }],
        );
        combat_challenges.insert(
            3,
            vec![ChallengeBox {
                dice_type: Some(AttributeType::Magic),
                total_value: 10,
                single_dice: false,
                priority: false,
                consequences: vec![Attribute::of_quantity(AttributeType::Health, 2)],
            }],
        );

        Dungeon {
            name: String::from_str("Lich's Tomb"),
            difficulty: 3,
            peril_challenges,
            combat_challenges,
        }
    }

    /// The Minotaur's Maze dungeon card.
    pub fn get_minotaurs_maze() -> (r: Dungeon)
        ensures
            r.name@ == "Minotaur's Maze"@,
            r.difficulty == 3,
            r.peril_challenges@.dom() =~= set![1i8, 2, 3],
            box_rules(r.peril_challenges@[1i8]@) =~= seq![(None, 5i8, true, true)],
            box_rules(r.peril_challenges@[2i8]@) =~= seq![(None, 3i8, true, true)],
            box_rules(r.peril_challenges@[3i8]@) =~= seq![(None, 6i8, true, false)],
            r.combat_challenges@.dom() =~= set![1i8, 2, 3],
            box_rules(r.combat_challenges@[1i8]@) =~= seq![(Some(AttributeKind::Agility), 2i8, true, false), (Some(AttributeKind::Agility), 2, true, false)],
            box_rules(r.combat_challenges@[2i8]@) =~= seq![(Some(AttributeKind::Strength), 3i8, true, true), (Some(AttributeKind::Strength), 3, true, true)],
            box_rules(r.combat_challenges@[3i8]@) =~= seq![(Some(AttributeKind::Agility), 12i8, false, false)],
    {
        broadcast use vstd::std_specs::hash::group_hash_axioms;

        let mut peril_challenges = HashMap::new();
        peril_challenges.insert(
            1,
            vec![ChallengeBox {
                dice_type: None,
                total_value: 5,
                single_dice: true,
                priority: true,
                consequences: vec![Attribute::of_quantity(AttributeType::Health, 1)],
            }],
        );
        peril_challenges.insert(
            2,
            vec![ChallengeBox {
                dice_type: None,
                total_value: 3,
                single_dice: true,
                priority: true,
                consequences: Vec::new(),
            }],
        );
        peril_challenges.insert(
            3,
            vec![ChallengeBox {
                dice_type: None,
                total_value: 6,
                single_dice: true,
                priority: false,
                consequences: vec![
                    Attribute::of_quantity(AttributeType::Health, 1),
                    Attribute::of_quantity(AttributeType::Time, 1),
                ],
            }],
        );
        let mut combat_challenges = HashMap::new();
        combat_challenges.insert(
            1,
            vec![
                ChallengeBox {
                    dice_type: Some(AttributeType::Agility),
                    total_value: 2,
                    single_dice: true,
                    priority: false,
                    consequences: vec![Attribute::of_quantity(AttributeType::Health, 1)],
                },
                ChallengeBox {
                    dice_type: Some(AttributeType::Agility),
                    total_value: 2,
                    single_dice: true,
                    priority: false,
                    consequences: vec![Attribute::of_quantity(AttributeType::Health, 1)],
                },
            ],
        );
        combat_challenges.insert(
            2,
            vec![
                ChallengeBox {
                    dice_type: Some(AttributeType::Strength),
                    total_value: 3,
                    single_dice: true,
                    priority: true,
                    consequences: Vec::new(),
                },
                ChallengeBox {
                    dice_type: Some(AttributeType::Strength),
                    total_value: 3,
                    single_dice: true,
                    priority: true,
                    consequences: Vec::new(),
                },
            ],
        );
        combat_challenges.insert(
            3,
            vec![ChallengeBox {
                dice_type: Some(AttributeType::Agility),
                total_value: 12,
                single_dice: false,
                priority: false,
                consequences: vec![Attribute::of_quantity(AttributeType::Health, 3)],
            }],
        );

        Dungeon {
            name: String::from_str("Minotaur's Maze"),
            difficulty: 3,
            peril_challenges,
            combat_challenges,
        }
    }
}

} // verus!
