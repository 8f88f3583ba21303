use crate::dungeon::{box_rules, ChallengeBox};
use crate::encounter::{Combat, Encounter};
use crate::hero::{records, Attribute, AttributeKind, AttributeType, Effect, Skill};
use vstd::prelude::*;
use vstd::string::*;

verus! {
/// Every monster card, each with its first and then its second skill
/// reward.
pub fn get_all_combats() -> (r: Vec<Combat>)
    ensures
        r@.map_values(|c: Combat| c.name@) =~= seq!["Goblin"@, "Goblin"@, "Ogre"@, "Ogre"@, "Beetle"@, "Beetle"@, "Phantom"@, "Phantom"@, "Bandit"@, "Bandit"@, "Shadow"@, "Shadow"@, "Plague Rat"@, "Plague Rat"@, "Skeleton"@, "Skeleton"@, "Glooping Ooze"@, "Glooping Ooze"@, "Ice Elemental"@, "Ice Elemental"@, "Fire Elemental"@, "Fire Elemental"@, "Wraith"@, "Wraith"@],
        r@.map_values(|c: Combat| c.skill_reward.name@) =~= seq!["DODGE"@, "SHIMMERBLAST"@, "BRUTE FORCE"@, "CHAOTIC AURA"@, "CRUSHING BLOW"@, "ACCURACY"@, "TRIPLE STRIKE"@, "STEADY HANDS"@, "CLEAVE"@, "BACKSTAB"@, "HEROISM"@, "STATIC BURST"@, "FLAMEWEAVE"@, "PERSISTENCE"@, "CLARITY"@, "INVISIBILITY"@, "HEROISM"@, "ARMOR CRUSH"@, "LUCKY FAMILIAR"@, "FLURRY"@, "MANA FONT"@, "CONSISTENCY"@, "DEXTERITY"@, "HASTE"@],
{
    vec![
        get_goblin(true),
        get_goblin(false),
        get_ogre(true),
        get_ogre(false),
        get_beetle(true),
        get_beetle(false),
        get_phantom(true),
        get_phantom(false),
        get_bandit(true),
        get_bandit(false),
        get_shadow(true),
        get_shadow(false),
        get_plague_rat(true),
        get_plague_rat(false),
        get_skeleton(true),
        get_skeleton(false),
        get_glooping_ooze(true),
        get_glooping_ooze(false),
        get_ice_elemental(true),
        get_ice_elemental(false),
        get_fire_elemental(true),
        get_fire_elemental(false),
        get_wraith(true),
        get_wraith(false),
    ]
}

/// The Goblin card, with the first or the second skill reward.
fn get_goblin(is_option_one: bool) -> (r: Combat)
    ensures
        r.name@ == "Goblin"@,
        r.special_ability is Swarm,
        r.xp_reward == 2,
        r.skill_reward.name@ == (if is_option_one { "DODGE"@ } else { "SHIMMERBLAST"@ }),
        box_rules(r.challenges@) =~= seq![(Some(AttributeKind::Strength), 4i8, false, true), (Some(AttributeKind::Strength), 3, true, false), (Some(AttributeKind::Agility), 4, true, false), (Some(AttributeKind::Agility), 4, true, false), (Some(AttributeKind::Strength), 5, true, false)],
        records(r.item_reward@) =~= seq![(AttributeKind::Strength, Some(1usize), None::<i8>)],
{
    let skill_reward = if is_option_one {
        Skill {
            name: String::from_str("DODGE"),
            description: Some(String::from_str(
                "Prevent 1 x HEALTH. In a boss fight prevent 2 x HEALTH.",
            )),
            requirements: Some(Attribute::of_quantity(AttributeType::Agility, 1)),
            effect: Effect::Prevent(AttributeType::Health),
            encounters: vec![Encounter::Combat, Encounter::Boss],
        }
    } else {
        Skill {
            name: String::from_str("SHIMMERBLAST"),
            description: Some(String::from_str("Roll 1 x HEROIC DICE")),
            requirements: Some(Attribute::of_value(AttributeType::Magic, 3)),
            effect: Effect::Roll(vec![Attribute::of_quantity(AttributeType::Heroic, 1)]),
            encounters: vec![Encounter::Combat, Encounter::Boss],
        }
    };
    Combat {
        name: String::from_str("Goblin"),
        special_ability: Effect::Swarm,
        challenges: vec![
            ChallengeBox {
                dice_type: Some(AttributeType::Strength),
                total_value: 4,
                single_dice: false,
                priority: true,
                consequences: Vec::new(),
            },
            ChallengeBox {
                dice_type: Some(AttributeType::Strength),
                total_value: 3,
                single_dice: true,
                priority: false,
                consequences: vec![Attribute::of_quantity(AttributeType::Health, 1)],
            },
            ChallengeBox {
                dice_type: Some(AttributeType::Agility),
                total_value: 4,
                single_dice: true,
                priority: false,
                consequences: vec![Attribute::of_quantity(AttributeType::Time, 1)],
            },
            ChallengeBox {
                dice_type: Some(AttributeType::Agility),
                total_value: 4,
                single_dice: true,
                priority: false,
                consequences: vec![
                    Attribute::of_quantity(AttributeType::Health, 1),
                    Attribute::of_quantity(AttributeType::Time, 1),
                ],
            },
            ChallengeBox {
                dice_type: Some(AttributeType::Strength),
                total_value: 5,
                single_dice: true,
                priority: false,
                consequences: vec![Attribute::of_quantity(AttributeType::Health, 2)],
            },
        ],
        xp_reward: 2,
        item_reward: vec![Attribute::of_quantity(AttributeType::Strength, 1)],
        skill_reward,
    }
}

/// The Ogre card, with the first or the second skill reward.
fn get_ogre(is_option_one: bool) -> (r: Combat)
    ensures
        r.name@ == "Ogre"@,
        r.special_ability is Nothing,
        r.xp_reward == 4,
        r.skill_reward.name@ == (if is_option_one { "BRUTE FORCE"@ } else { "CHAOTIC AURA"@ }),
        box_rules(r.challenges@) =~= seq![(Some(AttributeKind::Strength), 6i8, false, false), (Some(AttributeKind::Agility), 4, true, false), (Some(AttributeKind::Strength), 9, false, false), (Some(AttributeKind::Agility), 5, true, false), (Some(AttributeKind::Strength), 12, false, false), (Some(AttributeKind::Agility), 6, true, false)],
        records(r.item_reward@) =~= (if is_option_one { seq![(AttributeKind::Magic, Some(1usize), None::<i8>), (AttributeKind::Health, Some(1usize), None::<i8>)] } else { seq![(AttributeKind::Strength, Some(1usize), None::<i8>), (AttributeKind::Health, Some(1usize), None::<i8>)] }),
{
    let item_reward = if is_option_one {
        vec![
            Attribute::of_quantity(AttributeType::Magic, 1),
            Attribute::of_quantity(AttributeType::Health, 1),
        ]
    } else {
        vec![
            Attribute::of_quantity(AttributeType::Strength, 1),
            Attribute::of_quantity(AttributeType::Health, 1),
        ]
    };
    let skill_reward = if is_option_one {
        Skill {
            name: String::from_str("BRUTE FORCE"),
            description: Some(String::from_str(
                "Discard any number of value 5 dice. Gain that many value 6 STRENGTH dice.",
            )),
            requirements: None,
            effect: Effect::Gain(vec![Attribute::of_value(AttributeType::Strength, 6)]),
            encounters: vec![Encounter::Combat, Encounter::Peril, Encounter::Boss],
        }
    } else {
        Skill {
            name: String::from_str("CHAOTIC AURA"),
            description: Some(String::from_str(
                "Pick a value. Change up to five of your dice of that value to sixes.",
            )),
            requirements: Some(Attribute {
                attribute: AttributeType::Magic,
                value: Some(6),
                quantity: Some(1),
            }),
            effect: Effect::Change {
                attribute_type: AttributeType::Default,
                value: 6,
            },
            encounters: vec![Encounter::Combat, Encounter::Boss],
        }
    };
    Combat {
        name: String::from_str("Ogre"),
        special_ability: Effect::Nothing,
        challenges: vec![
            ChallengeBox {
                dice_type: Some(AttributeType::Strength),
                total_value: 6,
                single_dice: false,
                priority: false,
                consequences: vec![Attribute::of_quantity(AttributeType::Health, 1)],
            },
            ChallengeBox {
                dice_type: Some(AttributeType::Agility),
                total_value: 4,
                single_dice: true,
                priority: false,
                consequences: vec![Attribute::of_quantity(AttributeType::Time, 1)],
            },
            ChallengeBox {
                dice_type: Some(AttributeType::Strength),
                total_value: 9,
                single_dice: false,
                priority: false,
                consequences: vec![Attribute::of_quantity(AttributeType::Health, 2)],
            },
            ChallengeBox {
                dice_type: Some(AttributeType::Agility),
                total_value: 5,
                single_dice: true,
                priority: false,
                consequences: vec![
                    Attribute::of_quantity(AttributeType::Health, 1),
                    Attribute::of_quantity(AttributeType::Time, 1),
                ],
            },
            ChallengeBox {
                dice_type: Some(AttributeType::Strength),
                total_value: 12,
                single_dice: false,
                priority: false,
                consequences: vec![Attribute::of_quantity(AttributeType::Health, 3)],
            },
            ChallengeBox {
                dice_type: Some(AttributeType::Agility),
                total_value: 6,
                single_dice: true,
                priority: false,
                consequences: vec![
                    Attribute::of_quantity(AttributeType::Health, 1),
                    Attribute::of_quantity(AttributeType::Time, 1),
                ],
            },
        ],
        xp_reward: 4,
        item_reward,
        skill_reward,
    }
}

/// The Beetle card, with the first or the second skill reward.
fn get_beetle(is_option_one: bool) -> (r: Combat)
    ensures
        r.name@ == "Beetle"@,
        r.special_ability is Survivor,
        r.xp_reward == 2,
        r.skill_reward.name@ == (if is_option_one { "CRUSHING BLOW"@ } else { "ACCURACY"@ }),
        box_rules(r.challenges@) =~= seq![(Some(AttributeKind::Agility), 3i8, true, true), (Some(AttributeKind::Agility), 4, true, true), (Some(AttributeKind::Strength), 5, true, true), (Some(AttributeKind::Magic), 3, true, true), (Some(AttributeKind::Agility), 4, true, false), (Some(AttributeKind::Strength), 6, true, false)],
        records(r.item_reward@) =~= seq![(AttributeKind::Magic, Some(1usize), None::<i8>)],
{
    let skill_reward = if is_option_one {
        Skill {
            name: String::from_str("CRUSHING BLOW"),
            description: Some(String::from_str("Gain a STRENGTH value 6")),
            requirements: Some(Attribute::of_quantity(AttributeType::Strength, 1)),
            effect: Effect::Gain(vec![Attribute {
                attribute: AttributeType::Strength,
                quantity: Some(1),
                value: Some(6),
            }]),
            encounters: vec![Encounter::Combat, Encounter::Boss],
        }
    } else {
        Skill {
            name: String::from_str("ACCURACY"),
            description: Some(String::from_str("Gain a HEROIC DICE 6")),
            requirements: Some(Attribute::of_quantity(AttributeType::Agility, 3)),
            effect: Effect::Gain(vec![Attribute {
                attribute: AttributeType::Heroic,
                value: Some(6),
                quantity: Some(1),
            }]),
            encounters: vec![Encounter::Combat, Encounter::Peril, Encounter::Boss],
        }
    };
    Combat {
        name: String::from_str("Beetle"),
        special_ability: Effect::Survivor,
        challenges: vec![
            ChallengeBox {
                dice_type: Some(AttributeType::Agility),
                total_value: 3,
                single_dice: true,
                priority: true,
                consequences: Vec::new(),
            },
            ChallengeBox {
                dice_type: Some(AttributeType::Agility),
                total_value: 4,
                single_dice: true,
                priority: true,
                consequences: Vec::new(),
            },
            ChallengeBox {
                dice_type: Some(AttributeType::Strength),
                total_value: 5,
                single_dice: true,
                priority: true,
                consequences: Vec::new(),
            },
            ChallengeBox {
                dice_type: Some(AttributeType::Magic),
                total_value: 3,
                single_dice: true,
                priority: true,
                consequences: Vec::new(),
            },
            ChallengeBox {
                dice_type: Some(AttributeType::Agility),
                total_value: 4,
                single_dice: true,
                priority: false,
                consequences: vec![Attribute::of_quantity(AttributeType::Time, 2)],
            },
            ChallengeBox {
                dice_type: Some(AttributeType::Strength),
                total_value: 6,
                single_dice: true,
                priority: false,
                consequences: vec![
                    Attribute::of_quantity(AttributeType::Time, 1),
                    Attribute::of_quantity(AttributeType::Health, 1),
                ],
            },
        ],
        xp_reward: 2,
        item_reward: vec![Attribute::of_quantity(AttributeType::Magic, 1)],
        skill_reward,
    }
}

/// The Phantom card, with the first or the second skill reward.
fn get_phantom(is_option_one: bool) -> (r: Combat)
    ensures
        r.name@ == "Phantom"@,
        r.special_ability is Ethereal,
        r.xp_reward == 4,
        r.skill_reward.name@ == (if is_option_one { "TRIPLE STRIKE"@ } else { "STEADY HANDS"@ }),
        box_rules(r.challenges@) =~= seq![(Some(AttributeKind::Strength), 4i8, true, true), (Some(AttributeKind::Agility), 4, true, true), (Some(AttributeKind::Agility), 5, true, false), (Some(AttributeKind::Agility), 6, true, false), (Some(AttributeKind::Strength), 5, true, false), (Some(AttributeKind::Strength), 6, true, false)],
        records(r.item_reward@) =~= (if is_option_one { seq![(AttributeKind::Agility, Some(1usize), None::<i8>), (AttributeKind::Health, Some(1usize), None::<i8>)] } else { seq![(AttributeKind::Strength, Some(1usize), None::<i8>), (AttributeKind::Health, Some(1usize), None::<i8>)] }),
{
    let item_reward = if is_option_one {
        vec![
            Attribute::of_quantity(AttributeType::Agility, 1),
            Attribute::of_quantity(AttributeType::Health, 1),
        ]
    } else {
        vec![
            Attribute::of_quantity(AttributeType::Strength, 1),
            Attribute::of_quantity(AttributeType::Health, 1),
        ]
    };
    let skill_reward = if is_option_one {
        Skill {
            name: String::from_str("TRIPLE STRIKE"),
            description: Some(String::from_str("Gain value 5 STRENGTH, value 5 AGILITY, and value 5 MAGIC dice. Then make one of them a 6.")),
            requirements: Some(Attribute::of_quantity(AttributeType::Strength, 3)),
            effect: Effect::Gain(vec![Attribute {
                attribute: AttributeType::Strength,
                quantity: Some(1),
                value: Some(5),
            },
            Attribute {
                attribute: AttributeType::Agility,
                quantity: Some(1),
                value: Some(5),
            },
            Attribute {
                attribute: AttributeType::Magic,
                quantity: Some(1),
                value: Some(5),
            }]),
            encounters: vec![Encounter::Combat, Encounter::Boss],
        }
    } else {
        Skill {
            name: String::from_str("STEADY HANDS"),
            description: Some(String::from_str("Roll a HEROIC DICE.")),
            requirements: None,
            effect: Effect::Roll(vec![Attribute::of_quantity(AttributeType::Heroic, 1)]),
            encounters: vec![Encounter::Peril, Encounter::Boss],
        }
    };
    Combat {
        name: String::from_str("Phantom"),
        special_ability: Effect::Ethereal,
        challenges: vec![
            ChallengeBox {
                dice_type: Some(AttributeType::Strength),
                total_value: 4,
                single_dice: true,
                priority: true,
                consequences: Vec::new(),
            },
            ChallengeBox {
                dice_type: Some(AttributeType::Agility),
                total_value: 4,
                single_dice: true,
                priority: true,
                consequences: Vec::new(),
            },
            ChallengeBox {
                dice_type: Some(AttributeType::Agility),
                total_value: 5,
                single_dice: true,
                priority: false,
                consequences: vec![Attribute::of_quantity(AttributeType::Health, 2)],
            },
            ChallengeBox {
                dice_type: Some(AttributeType::Agility),
                total_value: 6,
                single_dice: true,
                priority: false,
                consequences: vec![
                    Attribute::of_quantity(AttributeType::Health, 1),
                    Attribute::of_quantity(AttributeType::Time, 1),
                ],
            },
            ChallengeBox {
                dice_type: Some(AttributeType::Strength),
                total_value: 5,
                single_dice: true,
                priority: false,
                consequences: vec![
                    Attribute::of_quantity(AttributeType::Health, 1),
                    Attribute::of_quantity(AttributeType::Time, 1),
                ],
            },
            ChallengeBox {
                dice_type: Some(AttributeType::Strength),
                total_value: 6,
                single_dice: true,
                priority: false,
                consequences: vec![Attribute::of_quantity(AttributeType::Health, 2)],
            },
        ],
        xp_reward: 4,
        item_reward,
        skill_reward,
    }
}

/// The Bandit card, with the first or the second skill reward.
fn get_bandit(is_option_one: bool) -> (r: Combat)
    ensures
        r.name@ == "Bandit"@,
        r.special_ability is Dodge,
        r.xp_reward == 3,
        r.skill_reward.name@ == (if is_option_one { "CLEAVE"@ } else { "BACKSTAB"@ }),
        box_rules(r.challenges@) =~= seq![(Some(AttributeKind::Agility), 8i8, false, false), (Some(AttributeKind::Agility), 3, true, false), (Some(AttributeKind::Agility), 4, true, false), (Some(AttributeKind::Strength), 5, true, false), (Some(AttributeKind::Strength), 5, true, false)],
        records(r.item_reward@) =~= (if is_option_one { seq![(AttributeKind::Agility, Some(1usize), None::<i8>)] } else { seq![(AttributeKind::Magic, Some(1usize), None::<i8>)] }),
{
    let item_reward = if is_option_one {
        vec![Attribute::of_quantity(AttributeType::Agility, 1)]
    } else {
        vec![Attribute::of_quantity(AttributeType::Magic, 1)]
    };
    let skill_reward = if is_option_one {
        Skill {
            name: String::from_str("CLEAVE"),
            description: Some(String::from_str("Increase up to four of your dice by 1 each.")),
            requirements: Some(Attribute::of_quantity(AttributeType::Strength, 1)),
            effect: Effect::Increase(4),
            encounters: vec![Encounter::Combat, Encounter::Boss],
        }
    } else {
        Skill {
            name: String::from_str("BACKSTAB"),
            description: Some(String::from_str("Roll 2 x STRENGTH dice.")),
            requirements: Some(Attribute::of_quantity(AttributeType::Agility, 1)),
            effect: Effect::Roll(vec![Attribute::of_quantity(AttributeType::Strength, 2)]),
            encounters: vec![Encounter::Combat, Encounter::Boss],
        }
    };
    Combat {
        name: String::from_str("Bandit"),
        special_ability: Effect::Dodge,
        challenges: vec![
            ChallengeBox {
                dice_type: Some(AttributeType::Agility),
                total_value: 8,
                single_dice: false,
                priority: false,
                consequences: vec![Attribute::of_quantity(AttributeType::Health, 2)],
            },
            ChallengeBox {
                dice_type: Some(AttributeType::Agility),
                total_value: 3,
                single_dice: true,
                priority: false,
                consequences: vec![Attribute::of_quantity(AttributeType::Health, 1)],
            },
            ChallengeBox {
                dice_type: Some(AttributeType::Agility),
                total_value: 4,
                single_dice: true,
                priority: false,
                consequences: vec![Attribute::of_quantity(AttributeType::Time, 1)],
            },
            ChallengeBox {
                dice_type: Some(AttributeType::Strength),
                total_value: 5,
                single_dice: true,
                priority: false,
                consequences: vec![Attribute::of_quantity(AttributeType::Time, 2)],
            },
            ChallengeBox {
                dice_type: Some(AttributeType::Strength),
                total_value: 5,
                single_dice: true,
                priority: false,
                consequences: vec![
                    Attribute::of_quantity(AttributeType::Health, 1),
                    Attribute::of_quantity(AttributeType::Time, 1),
                ],
            },
        ],
        xp_reward: 3,
        item_reward,
        skill_reward,
    }
}

/// The Shadow card, with the first or the second skill reward.
fn get_shadow(is_option_one: bool) -> (r: Combat)
    ensures
        r.name@ == "Shadow"@,
        r.special_ability is Fade,
        r.xp_reward == 3,
        r.skill_reward.name@ == (if is_option_one { "HEROISM"@ } else { "STATIC BURST"@ }),
        box_rules(r.challenges@) =~= seq![(Some(AttributeKind::Agility), 10i8, false, true), (Some(AttributeKind::Strength), 5, true, false), (Some(AttributeKind::Magic), 3, true, false), (Some(AttributeKind::Magic), 4, true, false), (Some(AttributeKind::Magic), 5, true, false)],
        records(r.item_reward@) =~= (if is_option_one { seq![(AttributeKind::Strength, Some(1usize), None::<i8>), (AttributeKind::Health, Some(1usize), None::<i8>)] } else { seq![(AttributeKind::Agility, Some(1usize), None::<i8>)] }),
{
    let item_reward = if is_option_one {
        vec![
            Attribute::of_quantity(AttributeType::Strength, 1),
            Attribute::of_quantity(AttributeType::Health, 1),
        ]
    } else {
        vec![Attribute::of_quantity(AttributeType::Agility, 1)]
    };
    let skill_reward = if is_option_one {
        Skill {
            name: String::from_str("HEROISM"),
            description: Some(String::from_str(
                "Change two of your non-HEROIC dice to by sixes.",
            )),
            requirements: Some(Attribute::of_quantity(AttributeType::Potion, 1)),
            effect: Effect::Change {
                attribute_type: AttributeType::Default,
                value: 6,
            },
            encounters: vec![Encounter::Combat, Encounter::Peril, Encounter::Boss],
        }
    } else {
        Skill {
            name: String::from_str("STATIC BURST"),
            description: Some(String::from_str("Gain a value 4 STRENGTH and a value 4 AGILITY. Then, increase one of your dice by 1.")),
            requirements: Some(Attribute {
                attribute: AttributeType::Magic,
                quantity: Some(1),
                value: Some(4),
            }),
            effect: Effect::Gain(vec![Attribute {
                attribute: AttributeType::Strength,
                quantity: Some(1),
                value: Some(4),
            }, Attribute {
                attribute: AttributeType::Agility,
                quantity: Some(1),
                value: Some(4),
            }]),
            encounters: vec![Encounter::Combat, Encounter::Boss],
        }
    };
    Combat {
        name: String::from_str("Shadow"),
        special_ability: Effect::Fade,
        challenges: vec![
            ChallengeBox {
                dice_type: Some(AttributeType::Agility),
                total_value: 10,
                single_dice: false,
                priority: true,
                consequences: Vec::new(),
            },
            ChallengeBox {
                dice_type: Some(AttributeType::Strength),
                total_value: 5,
                single_dice: true,
                priority: false,
                consequences: vec![
                    Attribute::of_quantity(AttributeType::Health, 1),
                    Attribute::of_quantity(AttributeType::Time, 1),
                ],
            },
            ChallengeBox {
                dice_type: Some(AttributeType::Magic),
                total_value: 3,
                single_dice: true,
                priority: false,
                consequences: vec![
                    Attribute::of_quantity(AttributeType::Health, 1),
                    Attribute::of_quantity(AttributeType::Time, 1),
                ],
            },
            ChallengeBox {
                dice_type: Some(AttributeType::Magic),
                total_value: 4,
                single_dice: true,
                priority: false,
                consequences: vec![
                    Attribute::of_quantity(AttributeType::Health, 1),
                    Attribute::of_quantity(AttributeType::Time, 1),
                ],
            },
            ChallengeBox {
                dice_type: Some(AttributeType::Magic),
                total_value: 5,
                single_dice: true,
                priority: false,
                consequences: vec![
                    Attribute::of_quantity(AttributeType::Health, 1),
                    Attribute::of_quantity(AttributeType::Time, 1),
                ],
            },
        ],
        xp_reward: 3,
        item_reward,
        skill_reward,
    }
}

/// The Plague Rat card, with the first or the second skill reward.
fn get_plague_rat(is_option_one: bool) -> (r: Combat)
    ensures
        r.name@ == "Plague Rat"@,
        r.special_ability is Swarm,
        r.xp_reward == 2,
        r.skill_reward.name@ == (if is_option_one { "FLAMEWEAVE"@ } else { "PERSISTENCE"@ }),
        box_rules(r.challenges@) =~= seq![(Some(AttributeKind::Agility), 4i8, false, true), (Some(AttributeKind::Agility), 3, true, false), (Some(AttributeKind::Strength), 3, true, false), (Some(AttributeKind::Strength), 5, true, false), (Some(AttributeKind::Agility), 5, true, false)],
        records(r.item_reward@) =~= seq![(AttributeKind::Agility, Some(1usize), None::<i8>)],
{
    let skill_reward = if is_option_one {
        Skill {
            name: String::from_str("FLAMEWEAVE"),
            description: Some(String::from_str("Gain a MAGIC value 5")),
            requirements: Some(Attribute {
                attribute: AttributeType::Magic,
                quantity: Some(1),
                value: Some(2),
            }),
            effect: Effect::Gain(vec![Attribute {
                attribute: AttributeType::Magic,
                quantity: Some(1),
                value: Some(5),
            }]),
            encounters: vec![Encounter::Combat, Encounter::Peril, Encounter::Boss],
        }
    } else {
        Skill {
            name: String::from_str("PERSISTENCE"),
            description: Some(String::from_str("Roll 1 x STRENGTH DICE and 1 x HEROIC DICE.")),
            requirements: Some(Attribute::of_quantity(AttributeType::Strength, 2)),
            effect: Effect::Roll(vec![
                Attribute::of_quantity(AttributeType::Strength, 1),
                Attribute::of_quantity(AttributeType::Heroic, 1),
            ]),
            encounters: vec![Encounter::Combat, Encounter::Peril, Encounter::Boss],
        }
    };
    Combat {
        name: String::from_str("Plague Rat"),
        special_ability: Effect::Swarm,
        challenges: vec![
            ChallengeBox {
                dice_type: Some(AttributeType::Agility),
                total_value: 4,
                single_dice: false,
                priority: true,
                consequences: Vec::new(),
            },
            ChallengeBox {
                dice_type: Some(AttributeType::Agility),
                total_value: 3,
                single_dice: true,
                priority: false,
                consequences: vec![
                    Attribute::of_quantity(AttributeType::Health, 1),
                    Attribute::of_quantity(AttributeType::Time, 1),
                ],
            },
            ChallengeBox {
                dice_type: Some(AttributeType::Strength),
                total_value: 3,
                single_dice: true,
                priority: false,
                consequences: vec![Attribute::of_quantity(AttributeType::Time, 1)],
            },
            ChallengeBox {
                dice_type: Some(AttributeType::Strength),
                total_value: 5,
                single_dice: true,
                priority: false,
                consequences: vec![
                    Attribute::of_quantity(AttributeType::Health, 1),
                    Attribute::of_quantity(AttributeType::Time, 1),
                ],
            },
            ChallengeBox {
                dice_type: Some(AttributeType::Agility),
                total_value: 5,
                single_dice: true,
                priority: false,
                consequences: vec![Attribute::of_quantity(AttributeType::Time, 2)],
            },
        ],
        xp_reward: 2,
        item_reward: vec![Attribute::of_quantity(AttributeType::Agility, 1)],
        skill_reward,
    }
}

/// The Skeleton card, with the first or the second skill reward.
fn get_skeleton(is_option_one: bool) -> (r: Combat)
    ensures
        r.name@ == "Skeleton"@,
        r.special_ability is Undying,
        r.xp_reward == 2,
        r.skill_reward.name@ == (if is_option_one { "CLARITY"@ } else { "INVISIBILITY"@ }),
        box_rules(r.challenges@) =~= seq![(Some(AttributeKind::Magic), 2i8, true, true), (Some(AttributeKind::Magic), 4, true, true), (Some(AttributeKind::Strength), 3, true, false), (Some(AttributeKind::Strength), 5, true, false), (Some(AttributeKind::Agility), 5, true, false), (Some(AttributeKind::Strength), 6, true, false)],
        records(r.item_reward@) =~= (if is_option_one { seq![(AttributeKind::Strength, Some(1usize), None::<i8>)] } else { seq![(AttributeKind::Agility, Some(1usize), None::<i8>)] }),
{
    let item_reward = if is_option_one {
        vec![Attribute::of_quantity(AttributeType::Strength, 1)]
    } else {
        vec![Attribute::of_quantity(AttributeType::Agility, 1)]
    };
    let skill_reward = if is_option_one {
        Skill {
            name: String::from_str("CLARITY"),
            description: Some(String::from_str(
                "Reroll all your 1s and 2s. Roll 1 x HEROIC DICE",
            )),
            requirements: Some(Attribute::of_quantity(AttributeType::Potion, 1)),
            effect: Effect::Reroll(AttributeType::Value(vec![1, 2])),
            encounters: vec![Encounter::Combat, Encounter::Peril, Encounter::Boss],
        }
    } else {
        Skill {
            name: String::from_str("INVISIBILITY"),
            description: Some(String::from_str(
                "Spend 2 x TIME before an encounter. Skip to the Claim Loot phase.",
            )),
            requirements: Some(Attribute::of_quantity(AttributeType::Potion, 1)),
            effect: Effect::Skip(Attribute::of_quantity(AttributeType::Time, 2)),
            encounters: vec![Encounter::Combat, Encounter::Peril, Encounter::Boss],
        }
    };
    Combat {
        name: String::from_str("Skeleton"),
        special_ability: Effect::Undying,
        challenges: vec![
            ChallengeBox {
                dice_type: Some(AttributeType::Magic),
                total_value: 2,
                single_dice: true,
                priority: true,
                consequences: Vec::new(),
            },
            ChallengeBox {
                dice_type: Some(AttributeType::Magic),
                total_value: 4,
                single_dice: true,
                priority: true,
                consequences: Vec::new(),
            },
            ChallengeBox {
                dice_type: Some(AttributeType::Strength),
                total_value: 3,
                single_dice: true,
                priority: false,
                consequences: vec![Attribute::of_quantity(AttributeType::Time, 1)],
            },
            ChallengeBox {
                dice_type: Some(AttributeType::Strength),
                total_value: 5,
                single_dice: true,
                priority: false,
                consequences: vec![
                    Attribute::of_quantity(AttributeType::Health, 1),
                    Attribute::of_quantity(AttributeType::Time, 1),
                ],
            },
            ChallengeBox {
                dice_type: Some(AttributeType::Agility),
                total_value: 5,
                single_dice: true,
                priority: false,
                consequences: vec![
                    Attribute::of_quantity(AttributeType::Health, 1),
                    Attribute::of_quantity(AttributeType::Time, 1),
                ],
            },
            ChallengeBox {
                dice_type: Some(AttributeType::Strength),
                total_value: 6,
                single_dice: true,
                priority: false,
                consequences: vec![Attribute::of_quantity(AttributeType::Time, 2)],
            },
        ],
        xp_reward: 2,
        item_reward,
        skill_reward,
    }
}

/// The Glooping Ooze card, with the first or the second skill reward.
fn get_glooping_ooze(is_option_one: bool) -> (r: Combat)
    ensures
        r.name@ == "Glooping Ooze"@,
        r.special_ability is Split,
        r.xp_reward == 3,
        r.skill_reward.name@ == (if is_option_one { "HEROISM"@ } else { "ARMOR CRUSH"@ }),
        box_rules(r.challenges@) =~= seq![(Some(AttributeKind::Magic), 2i8, true, true), (Some(AttributeKind::Magic), 3, true, true), (Some(AttributeKind::Strength), 4, true, false), (Some(AttributeKind::Strength), 4, true, false), (Some(AttributeKind::Magic), 5, true, false), (Some(AttributeKind::Strength), 6, true, false)],
        records(r.item_reward@) =~= (if is_option_one { seq![(AttributeKind::Strength, Some(1usize), None::<i8>), (AttributeKind::Health, Some(1usize), None::<i8>)] } else { seq![(AttributeKind::Magic, Some(1usize), None::<i8>)] }),
{
    let item_reward = if is_option_one {
        vec![
            Attribute::of_quantity(AttributeType::Strength, 1),
            Attribute::of_quantity(AttributeType::Health, 1),
        ]
    } else {
        vec![Attribute::of_quantity(AttributeType::Magic, 1)]
    };
    let skill_reward = if is_option_one {
        Skill {
            name: String::from_str("HEROISM"),
            description: Some(String::from_str(
                "Change two of your non-HEROIC dice to by sixes.",
            )),
            requirements: Some(Attribute::of_quantity(AttributeType::Potion, 1)),
            effect: Effect::Change {
                attribute_type: AttributeType::Default,
                value: 6,
            },
            encounters: vec![Encounter::Combat, Encounter::Peril, Encounter::Boss],
        }
    } else {
        Skill {
            name: String::from_str("ARMOR CRUSH"),
            description: Some(String::from_str(
                "Gain a value 6 HEROIC dice. You can only use it to cover a box with PRIORITY.",
            )),
            requirements: Some(Attribute::of_quantity(AttributeType::Strength, 1)),
            effect: Effect::Gain(vec![Attribute {
                attribute: AttributeType::Heroic,
                quantity: Some(1),
                value: Some(6),
            }]),
            encounters: vec![Encounter::Combat, Encounter::Boss],
        }
    };
    Combat {
        name: String::from_str("Glooping Ooze"),
        special_ability: Effect::Split,
        challenges: vec![
            ChallengeBox {
                dice_type: Some(AttributeType::Magic),
                total_value: 2,
                single_dice: true,
                priority: true,
                consequences: Vec::new(),
            },
            ChallengeBox {
                dice_type: Some(AttributeType::Magic),
                total_value: 3,
                single_dice: true,
                priority: true,
                consequences: Vec::new(),
            },
            ChallengeBox {
                dice_type: Some(AttributeType::Strength),
                total_value: 4,
                single_dice: true,
                priority: false,
                consequences: vec![
                    Attribute::of_quantity(AttributeType::Health, 1),
                    Attribute::of_quantity(AttributeType::Time, 1),
                ],
            },
            ChallengeBox {
                dice_type: Some(AttributeType::Strength),
                total_value: 4,
                single_dice: true,
                priority: false,
                consequences: vec![
                    Attribute::of_quantity(AttributeType::Health, 1),
                    Attribute::of_quantity(AttributeType::Time, 1),
                ],
            },
            ChallengeBox {
                dice_type: Some(AttributeType::Magic),
                total_value: 5,
                single_dice: true,
                priority: false,
                consequences: vec![Attribute::of_quantity(AttributeType::Time, 2)],
            },
            ChallengeBox {
                dice_type: Some(AttributeType::Strength),
                total_value: 6,
                single_dice: true,
                priority: false,
                consequences: vec![
                    Attribute::of_quantity(AttributeType::Health, 1),
                    Attribute::of_quantity(AttributeType::Time, 1),
                ],
            },
        ],
        xp_reward: 3,
        item_reward,
        skill_reward,
    }
}

/// The Ice Elemental card, with the first or the second skill reward.
fn get_ice_elemental(is_option_one: bool) -> (r: Combat)
    ensures
        r.name@ == "Ice Elemental"@,
        r.special_ability is Frost,
        r.xp_reward == 4,
        r.skill_reward.name@ == (if is_option_one { "LUCKY FAMILIAR"@ } else { "FLURRY"@ }),
        box_rules(r.challenges@) =~= seq![(Some(AttributeKind::Strength), 11i8, false, true), (Some(AttributeKind::Strength), 3, true, false), (Some(AttributeKind::Magic), 4, true, false), (Some(AttributeKind::Magic), 5, true, false), (Some(AttributeKind::Magic), 6, true, false)],
        records(r.item_reward@) =~= seq![(AttributeKind::Agility, Some(1usize), None::<i8>), (AttributeKind::Health, Some(1usize), None::<i8>)],
{
    let skill_reward = if is_option_one {
        Skill {
            name: String::from_str("LUCKY FAMILIAR"),
            description: Some(String::from_str(
                "Reroll one of your dice OR increase one of your dice by 1.",
            )),
            requirements: None,
            effect: Effect::Reroll(AttributeType::Default),
            encounters: vec![Encounter::Combat, Encounter::Peril, Encounter::Boss],
        }
    } else {
        Skill {
            name: String::from_str("FLURRY"),
            description: Some(String::from_str("Roll 2 x AGILITY, 1 x STRENGTH dice.")),
            requirements: Some(Attribute::of_quantity(AttributeType::Strength, 2)),
            effect: Effect::Roll(vec![
                Attribute::of_quantity(AttributeType::Agility, 2),
                Attribute::of_quantity(AttributeType::Strength, 1),
            ]),
            encounters: vec![Encounter::Combat, Encounter::Boss],
        }
    };
    Combat {
        name: String::from_str("Ice Elemental"),
        special_ability: Effect::Frost,
        challenges: vec![
            ChallengeBox {
                dice_type: Some(AttributeType::Strength),
                total_value: 11,
                single_dice: false,
                priority: true,
                consequences: Vec::new(),
            },
            ChallengeBox {
                dice_type: Some(AttributeType::Strength),
                total_value: 3,
                single_dice: true,
                priority: false,
                consequences: vec![Attribute::of_quantity(AttributeType::Time, 1)],
            },
            ChallengeBox {
                dice_type: Some(AttributeType::Magic),
                total_value: 4,
                single_dice: true,
                priority: false,
                consequences: vec![Attribute::of_quantity(AttributeType::Health, 2)],
            },
            ChallengeBox {
                dice_type: Some(AttributeType::Magic),
                total_value: 5,
                single_dice: true,
                priority: false,
                consequences: vec![
                    Attribute::of_quantity(AttributeType::Health, 1),
                    Attribute::of_quantity(AttributeType::Time, 1),
                ],
            },
            ChallengeBox {
                dice_type: Some(AttributeType::Magic),
                total_value: 6,
                single_dice: true,
                priority: false,
                consequences: vec![
                    Attribute::of_quantity(AttributeType::Health, 1),
                    Attribute::of_quantity(AttributeType::Time, 1),
                ],
            },
        ],
        xp_reward: 4,
        item_reward: vec![
            Attribute::of_quantity(AttributeType::Agility, 1),
            Attribute::of_quantity(AttributeType::Health, 1),
        ],
        skill_reward,
    }
}

/// The Fire Elemental card, with the first or the second skill reward.
fn get_fire_elemental(is_option_one: bool) -> (r: Combat)
    ensures
        r.name@ == "Fire Elemental"@,
        r.special_ability is Flames,
        r.xp_reward == 4,
        r.skill_reward.name@ == (if is_option_one { "MANA FONT"@ } else { "CONSISTENCY"@ }),
        box_rules(r.challenges@) =~= seq![(Some(AttributeKind::Magic), 3i8, false, false), (Some(AttributeKind::Agility), 3, true, false), (Some(AttributeKind::Magic), 6, true, false), (Some(AttributeKind::Magic), 11, false, false), (Some(AttributeKind::Agility), 6, true, false)],
        records(r.item_reward@) =~= (if is_option_one { seq![(AttributeKind::Agility, Some(1usize), None::<i8>), (AttributeKind::Health, Some(1usize), None::<i8>)] } else { seq![(AttributeKind::Magic, Some(1usize), None::<i8>), (AttributeKind::Health, Some(1usize), None::<i8>)] }),
{
    let item_reward = if is_option_one {
        vec![
            Attribute::of_quantity(AttributeType::Agility, 1),
            Attribute::of_quantity(AttributeType::Health, 1),
        ]
    } else {
        vec![
            Attribute::of_quantity(AttributeType::Magic, 1),
            Attribute::of_quantity(AttributeType::Health, 1),
        ]
    };
    let skill_reward = if is_option_one {
        Skill {
            name: String::from_str("MANA FONT"),
            description: Some(String::from_str(
                "Choose MAGIC, STRENGTH, or AGILITY. Increase all of your dice of that color by 1.",
            )),
            requirements: Some(Attribute {
                attribute: AttributeType::Magic,
                quantity: Some(1),
                value: Some(2),
            }),
            effect: Effect::Increase(1),
            encounters: vec![Encounter::Combat, Encounter::Boss],
        }
    } else {
        Skill {
            name: String::from_str("CONSISTENCY"),
            description: Some(String::from_str("Change any or all of your dice to 4s.")),
            requirements: Some(Attribute::of_quantity(AttributeType::Agility, 1)),
            effect: Effect::Change {
                attribute_type: AttributeType::Default,
                value: 4,
            },
            encounters: vec![Encounter::Combat, Encounter::Boss],
        }
    };
    Combat {
        name: String::from_str("Fire Elemental"),
        special_ability: Effect::Flames,
        challenges: vec![
            ChallengeBox {
                dice_type: Some(AttributeType::Magic),
                total_value: 3,
                single_dice: false,
                priority: false,
                consequences: vec![Attribute::of_quantity(AttributeType::Time, 1)],
            },
            ChallengeBox {
                dice_type: Some(AttributeType::Agility),
                total_value: 3,
                single_dice: true,
                priority: false,
                consequences: vec![Attribute::of_quantity(AttributeType::Time, 1)],
            },
            ChallengeBox {
                dice_type: Some(AttributeType::Magic),
                total_value: 6,
                single_dice: true,
                priority: false,
                consequences: vec![
                    Attribute::of_quantity(AttributeType::Health, 1),
                    Attribute::of_quantity(AttributeType::Time, 1),
                ],
            },
            ChallengeBox {
                dice_type: Some(AttributeType::Magic),
                total_value: 11,
                single_dice: false,
                priority: false,
                consequences: vec![
                    Attribute::of_quantity(AttributeType::Health, 2),
                    Attribute::of_quantity(AttributeType::Time, 1),
                ],
            },
            ChallengeBox {
                dice_type: Some(AttributeType::Agility),
                total_value: 6,
                single_dice: true,
                priority: false,
                consequences: vec![
                    Attribute::of_quantity(AttributeType::Health, 1),
                    Attribute::of_quantity(AttributeType::Time, 1),
                ],
            },
        ],
        xp_reward: 4,
        item_reward,
        skill_reward,
    }
}

/// The Wraith card, with the first or the second skill reward.
fn get_wraith(is_option_one: bool) -> (r: Combat)
    ensures
        r.name@ == "Wraith"@,
        r.special_ability is Drain,
        r.xp_reward == 3,
        r.skill_reward.name@ == (if is_option_one { "DEXTERITY"@ } else { "HASTE"@ }),
        box_rules(r.challenges@) =~= seq![(Some(AttributeKind::Magic), 9i8, false, true), (Some(AttributeKind::Strength), 5, true, true), (Some(AttributeKind::Strength), 3, true, false), (Some(AttributeKind::Strength), 5, true, false), (Some(AttributeKind::Magic), 6, true, false)],
        records(r.item_reward@) =~= seq![(AttributeKind::Strength, Some(1usize), None::<i8>)],
{
    let skill_reward = if is_option_one {
        Skill {
            name: String::from_str("DEXTERITY"),
            description: Some(String::from_str("Gain a value 6 AGILITY dice")),
            requirements: Some(Attribute::of_quantity(AttributeType::Agility, 1)),
            effect: Effect::Gain(vec![Attribute {
                attribute: AttributeType::Agility,
                value: Some(6),
                quantity: Some(1),
            }]),
            encounters: vec![Encounter::Combat, Encounter::Boss],
        }
    } else {
        Skill {
            name: String::from_str("HASTE"),
            description: Some(String::from_str("Roll 2 x AGILITY dice.")),
            requirements: Some(Attribute {
                attribute: AttributeType::Magic,
                quantity: Some(1),
                value: Some(3),
            }),
            effect: Effect::Gain(vec![Attribute::of_quantity(AttributeType::Agility, 2)]),
            encounters: vec![Encounter::Combat, Encounter::Boss],
        }
    };
    Combat {
        name: String::from_str("Wraith"),
        special_ability: Effect::Drain,
        challenges: vec![
            ChallengeBox {
                dice_type: Some(AttributeType::Magic),
                total_value: 9,
                single_dice: false,
                priority: true,
                consequences: Vec::new(),
            },
            ChallengeBox {
                dice_type: Some(AttributeType::Strength),
                total_value: 5,
                single_dice: true,
                priority: true,
                consequences: Vec::new(),
            },
            ChallengeBox {
                dice_type: Some(AttributeType::Strength),
                total_value: 3,
                single_dice: true,
                priority: false,
                consequences: vec![Attribute::of_quantity(AttributeType::Time, 2)],
            },
            ChallengeBox {
                dice_type: Some(AttributeType::Strength),
                total_value: 5,
                single_dice: true,
                priority: false,
                consequences: vec![Attribute::of_quantity(AttributeType::Health, 2)],
            },
            ChallengeBox {
                dice_type: Some(AttributeType::Magic),
                total_value: 6,
                single_dice: true,
                priority: false,
                consequences: vec![
                    Attribute::of_quantity(AttributeType::Health, 1),
                    Attribute::of_quantity(AttributeType::Time, 1),
                ],
            },
        ],
        xp_reward: 3,
        item_reward: vec![Attribute::of_quantity(AttributeType::Strength, 1)],
        skill_reward,
    }
}
} // verus!
