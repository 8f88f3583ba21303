use crate::dungeon::{box_rules, ChallengeBox};
use crate::encounter::{Encounter, Peril};
use crate::hero::{records, Attribute, AttributeKind, AttributeType, Effect, Skill};
use vstd::prelude::*;
use vstd::string::*;

verus! {
/// Every peril card, each with its first and then its second set of
/// rewards.
pub fn get_all_perils() -> (r: Vec<Peril>)
    ensures
        r@.map_values(|p: Peril| p.name@) =~= seq!["Rune Puzzle"@, "Rune Puzzle"@, "Locked Door"@, "Locked Door"@, "Cave-in"@, "Cave-in"@, "Boulder"@, "Boulder"@, "Arrow Wall"@, "Arrow Wall"@, "Flame Statues"@, "Flame Statues"@, "Spiked Log"@, "Spiked Log"@, "Bear Traps"@, "Bear Traps"@, "Pit of Spikes"@, "Pit of Spikes"@, "Force Wall"@, "Force Wall"@],
        r@.map_values(|p: Peril| p.skill_reward.name@) =~= seq!["CLARITY"@, "PERSISTENCE"@, "SHIMMERBLAST"@, "ACCURACY"@, "CRUSHING BLOW"@, "FLAMEWEAVE"@, "CRITICAL STRIKES"@, "VALOR"@, "MANA"@, "DODGE"@, "BACKSTAB"@, "HASTE"@, "CLEAVE"@, "STATIC BURST"@, "MANA"@, "INVISIBILITY"@, "DEXTERITY"@, "ARMOR CRUSH"@, "CRUSHING FIST"@, "POISON"@],
{
    vec![
        get_rune_puzzle(true),
        get_rune_puzzle(false),
        get_locked_door(true),
        get_locked_door(false),
        get_cave_in(true),
        get_cave_in(false),
        get_boulder(true),
        get_boulder(false),
        get_arrow_wall(true),
        get_arrow_wall(false),
        get_flame_statues(true),
        get_flame_statues(false),
        get_spiked_log(true),
        get_spiked_log(false),
        get_bear_traps(true),
        get_bear_traps(false),
        get_pit_of_spikes(true),
        get_pit_of_spikes(false),
        get_force_wall(true),
        get_force_wall(false),
    ]
}

/// The Rune Puzzle card, with the first or the second set of rewards.
fn get_rune_puzzle(is_option_one: bool) -> (r: Peril)
    ensures
        r.name@ == "Rune Puzzle"@,
        r.xp_reward == 2,
        r.skill_reward.name@ == (if is_option_one { "CLARITY"@ } else { "PERSISTENCE"@ }),
        box_rules(r.choice_one@) =~= seq![(Some(AttributeKind::Magic), 6i8, false, false)],
        r.choice_one_time_cost == Some(2i8),
        box_rules(r.choice_two@) =~= seq![(Some(AttributeKind::Strength), 11i8, false, false)],
        records(r.item_reward@) =~= (if is_option_one { seq![(AttributeKind::Strength, Some(1usize), None::<i8>)] } else { seq![(AttributeKind::Agility, Some(1usize), None::<i8>)] }),
        r.choice_two_time_cost == None::<i8>,
{
    let item_reward = if is_option_one {
        vec![Attribute::of_quantity(AttributeType::Strength, 1)]
    } else {
        vec![Attribute::of_quantity(AttributeType::Agility, 1)]
    };

    let skill_reward = if is_option_one {
        Skill {
            name: String::from_str("CLARITY"),
            description: Some(String::from_str(
                "Reroll all your 1s and 2s. Roll 1 x HEROIC DICE",
            )),
            requirements: Some(Attribute::of_quantity(AttributeType::Potion, 1)),
            effect: Effect::Reroll(AttributeType::Value(vec![1, 2])),
            encounters: vec![Encounter::Combat, Encounter::Peril, Encounter::Boss],
        }
    } else {
        Skill {
            name: String::from_str("PERSISTENCE"),
            description: Some(String::from_str("Roll 1 x STRENGTH DICE and 1 x HEROIC DICE.")),
            requirements: Some(Attribute::of_quantity(AttributeType::Strength, 2)),
            effect: Effect::Roll(vec![
                Attribute::of_quantity(AttributeType::Strength, 1),
                Attribute::of_quantity(AttributeType::Heroic, 1),
            ]),
            encounters: vec![Encounter::Combat, Encounter::Peril, Encounter::Boss],
        }
    };

    Peril {
        name: String::from_str("Rune Puzzle"),
        choice_one: vec![ChallengeBox {
            dice_type: Some(AttributeType::Magic),
            total_value: 6,
            single_dice: false,
            priority: false,
            consequences: vec![
                Attribute::of_quantity(AttributeType::Health, 1),
                Attribute::of_quantity(AttributeType::Time, 3),
            ],
        }],
        choice_one_time_cost: Some(2),
        choice_two: vec![ChallengeBox {
            dice_type: Some(AttributeType::Strength),
            total_value: 11,
            single_dice: false,
            priority: false,
            consequences: vec![
                Attribute::of_quantity(AttributeType::Health, 3),
                Attribute::of_quantity(AttributeType::Time, 2),
            ],
        }],
        choice_two_time_cost: None,
        xp_reward: 2,
        item_reward,
        skill_reward,
    }
}

/// The Locked Door card, with the first or the second set of rewards.
fn get_locked_door(is_option_one: bool) -> (r: Peril)
    ensures
        r.name@ == "Locked Door"@,
        r.xp_reward == 2,
        r.skill_reward.name@ == (if is_option_one { "SHIMMERBLAST"@ } else { "ACCURACY"@ }),
        box_rules(r.choice_one@) =~= seq![(Some(AttributeKind::Agility), 8i8, false, false)],
        r.choice_one_time_cost == Some(1i8),
        box_rules(r.choice_two@) =~= seq![(Some(AttributeKind::Strength), 11i8, false, false)],
        records(r.item_reward@) =~= (if is_option_one { seq![(AttributeKind::Strength, Some(1usize), None::<i8>)] } else { seq![(AttributeKind::Magic, Some(1usize), None::<i8>)] }),
        r.choice_two_time_cost == None::<i8>,
{
    let item_reward = if is_option_one {
        vec![Attribute::of_quantity(AttributeType::Strength, 1)]
    } else {
        vec![Attribute::of_quantity(AttributeType::Magic, 1)]
    };

    let skill_reward = if is_option_one {
        Skill {
            name: String::from_str("SHIMMERBLAST"),
            description: Some(String::from_str("Roll 1 x HEROIC DICE")),
            requirements: Some(Attribute::of_value(AttributeType::Magic, 3)),
            effect: Effect::Roll(vec![Attribute::of_quantity(AttributeType::Heroic, 1)]),
            encounters: vec![Encounter::Combat, Encounter::Boss],
        }
    } else {
        Skill {
            name: String::from_str("ACCURACY"),
            description: Some(String::from_str("Gain a HEROIC DICE 6")),
            requirements: Some(Attribute::of_quantity(AttributeType::Agility, 3)),
            effect: Effect::Gain(vec![Attribute {
                attribute: AttributeType::Heroic,
                value: Some(6),
                quantity: Some(1),
            }]),
            encounters: vec![Encounter::Combat, Encounter::Peril, Encounter::Boss],
        }
    };

    Peril {
        name: String::from_str("Locked Door"),
        choice_one: vec![ChallengeBox {
            dice_type: Some(AttributeType::Agility),
            total_value: 8,
            single_dice: false,
            priority: false,
            consequences: vec![
                Attribute::of_quantity(AttributeType::Health, 1),
                Attribute::of_quantity(AttributeType::Time, 4),
            ],
        }],
        choice_one_time_cost: Some(1),
        choice_two: vec![ChallengeBox {
            dice_type: Some(AttributeType::Strength),
            total_value: 11,
            single_dice: false,
            priority: false,
            consequences: vec![
                Attribute::of_quantity(AttributeType::Health, 2),
                Attribute::of_quantity(AttributeType::Time, 2),
            ],
        }],
        choice_two_time_cost: None,
        xp_reward: 2,
        item_reward,
        skill_reward,
    }
}

/// The Cave-in card, with the first or the second set of rewards.
fn get_cave_in(is_option_one: bool) -> (r: Peril)
    ensures
        r.name@ == "Cave-in"@,
        r.xp_reward == 2,
        r.skill_reward.name@ == (if is_option_one { "CRUSHING BLOW"@ } else { "FLAMEWEAVE"@ }),
        box_rules(r.choice_one@) =~= seq![(Some(AttributeKind::Strength), 6i8, false, false)],
        r.choice_one_time_cost == Some(2i8),
        box_rules(r.choice_two@) =~= seq![(Some(AttributeKind::Agility), 11i8, false, false)],
        records(r.item_reward@) =~= (if is_option_one { seq![(AttributeKind::Magic, Some(1usize), None::<i8>)] } else { seq![(AttributeKind::Agility, Some(1usize), None::<i8>)] }),
        r.choice_two_time_cost == None::<i8>,
{
    let item_reward = if is_option_one {
        vec![Attribute::of_quantity(AttributeType::Magic, 1)]
    } else {
        vec![Attribute::of_quantity(AttributeType::Agility, 1)]
    };
    let skill_reward = if is_option_one {
        Skill {
            name: String::from_str("CRUSHING BLOW"),
            description: Some(String::from_str("Gain a STRENGTH value 6")),
            requirements: Some(Attribute::of_quantity(AttributeType::Strength, 1)),
            effect: Effect::Gain(vec![Attribute {
                attribute: AttributeType::Strength,
                quantity: Some(1),
                value: Some(6),
            }]),
            encounters: vec![Encounter::Combat, Encounter::Boss],
        }
    } else {
        Skill {
            name: String::from_str("FLAMEWEAVE"),
            description: Some(String::from_str("Gain a MAGIC value 5")),
            requirements: Some(Attribute {
                attribute: AttributeType::Magic,
                quantity: Some(1),
                value: Some(2),
            }),
            effect: Effect::Gain(vec![Attribute {
                attribute: AttributeType::Magic,
                quantity: Some(1),
                value: Some(5),
            }]),
            encounters: vec![Encounter::Combat, Encounter::Peril, Encounter::Boss],
        }
    };

    Peril {
        name: String::from_str("Cave-in"),
        choice_one: vec![ChallengeBox {
            dice_type: Some(AttributeType::Strength),
            single_dice: false,
            total_value: 6,
            priority: false,
            consequences: vec![
                Attribute::of_quantity(AttributeType::Health, 1),
                Attribute::of_quantity(AttributeType::Time, 3),
            ],
        }],
        choice_one_time_cost: Some(2),
        choice_two: vec![ChallengeBox {
            dice_type: Some(AttributeType::Agility),
            single_dice: false,
            total_value: 11,
            priority: false,
            consequences: vec![
                Attribute::of_quantity(AttributeType::Health, 2),
                Attribute::of_quantity(AttributeType::Time, 2),
            ],
        }],
        choice_two_time_cost: None,
        xp_reward: 2,
        item_reward,
        skill_reward,
    }
}

/// The Boulder card, with the first or the second set of rewards.
fn get_boulder(is_option_one: bool) -> (r: Peril)
    ensures
        r.name@ == "Boulder"@,
        r.xp_reward == 4,
        r.skill_reward.name@ == (if is_option_one { "CRITICAL STRIKES"@ } else { "VALOR"@ }),
        box_rules(r.choice_one@) =~= seq![(Some(AttributeKind::Magic), 11i8, false, false)],
        r.choice_one_time_cost == Some(3i8),
        box_rules(r.choice_two@) =~= seq![(Some(AttributeKind::Agility), 14i8, false, false)],
        records(r.item_reward@) =~= (if is_option_one { seq![(AttributeKind::Strength, Some(1usize), None::<i8>), (AttributeKind::Health, Some(1usize), None::<i8>)] } else { seq![(AttributeKind::Magic, Some(1usize), None::<i8>), (AttributeKind::Health, Some(1usize), None::<i8>)] }),
        r.choice_two_time_cost == None::<i8>,
{
    let item_reward = if is_option_one {
        vec![
            Attribute::of_quantity(AttributeType::Strength, 1),
            Attribute::of_quantity(AttributeType::Health, 1),
        ]
    } else {
        vec![
            Attribute::of_quantity(AttributeType::Magic, 1),
            Attribute::of_quantity(AttributeType::Health, 1),
        ]
    };
    let skill_reward = if is_option_one {
        Skill {
            name: String::from_str("CRITICAL STRIKES"),
            description: Some(String::from_str(
                "Change one or two AGILITY dice into HEROIC dice of the same values.",
            )),
            requirements: None,
            effect: Effect::Change {
                attribute_type: AttributeType::Agility,
                value: 2,
            },
            encounters: vec![Encounter::Combat, Encounter::Boss],
        }
    } else {
        Skill {
            name: String::from_str("VALOR"),
            description: Some(String::from_str("Roll an HEROIC dice.")),
            requirements: None,
            effect: Effect::Roll(vec![Attribute::of_quantity(AttributeType::Heroic, 1)]),
            encounters: vec![Encounter::Combat, Encounter::Boss],
        }
    };

    Peril {
        name: String::from_str("Boulder"),
        choice_one: vec![ChallengeBox {
            dice_type: Some(AttributeType::Magic),
            single_dice: false,
            total_value: 11,
            priority: false,
            consequences: vec![
                Attribute::of_quantity(AttributeType::Health, 3),
                Attribute::of_quantity(AttributeType::Time, 2),
            ],
        }],
        choice_one_time_cost: Some(3),
        choice_two: vec![ChallengeBox {
            dice_type: Some(AttributeType::Agility),
            single_dice: false,
            total_value: 14,
            priority: false,
            consequences: vec![
                Attribute::of_quantity(AttributeType::Health, 4),
                Attribute::of_quantity(AttributeType::Time, 1),
            ],
        }],
        choice_two_time_cost: None,
        xp_reward: 4,
        item_reward,
        skill_reward,
    }
}

/// The Arrow Wall card, with the first or the second set of rewards.
fn get_arrow_wall(is_option_one: bool) -> (r: Peril)
    ensures
        r.name@ == "Arrow Wall"@,
        r.xp_reward == 2,
        r.skill_reward.name@ == (if is_option_one { "MANA"@ } else { "DODGE"@ }),
        box_rules(r.choice_one@) =~= seq![(Some(AttributeKind::Magic), 6i8, false, false)],
        r.choice_one_time_cost == Some(1i8),
        box_rules(r.choice_two@) =~= seq![(Some(AttributeKind::Agility), 11i8, false, false)],
        records(r.item_reward@) =~= (if is_option_one { seq![(AttributeKind::Magic, Some(1usize), None::<i8>)] } else { seq![(AttributeKind::Strength, Some(1usize), None::<i8>)] }),
        r.choice_two_time_cost == None::<i8>,
{
    let item_reward = if is_option_one {
        vec![Attribute::of_quantity(AttributeType::Magic, 1)]
    } else {
        vec![Attribute::of_quantity(AttributeType::Strength, 1)]
    };
    let skill_reward = if is_option_one {
        Skill {
            name: String::from_str("MANA"),
            description: Some(String::from_str("Roll 3 x MAGIC dice")),
            requirements: Some(Attribute::of_quantity(AttributeType::Potion, 1)),
            effect: Effect::Roll(vec![Attribute::of_quantity(AttributeType::Magic, 3)]),
            encounters: vec![Encounter::Combat, Encounter::Peril, Encounter::Boss],
        }
    } else {
        Skill {
            name: String::from_str("DODGE"),
            description: Some(String::from_str(
                "Prevent 1 x HEALTH. In a boss fight prevent 2 x HEALTH.",
            )),
            requirements: Some(Attribute::of_quantity(AttributeType::Agility, 1)),
            effect: Effect::Prevent(AttributeType::Health),
            encounters: vec![Encounter::Combat, Encounter::Boss],
        }
    };

    Peril {
        name: String::from_str("Arrow Wall"),
        choice_one: vec![ChallengeBox {
            dice_type: Some(AttributeType::Magic),
            single_dice: false,
            total_value: 6,
            priority: false,
            consequences: vec![
                Attribute::of_quantity(AttributeType::Health, 2),
                Attribute::of_quantity(AttributeType::Time, 3),
            ],
        }],
        choice_one_time_cost: Some(1),
        choice_two: vec![ChallengeBox {
            dice_type: Some(AttributeType::Agility),
            single_dice: false,
            total_value: 11,
            priority: false,
            consequences: vec![
                Attribute::of_quantity(AttributeType::Health, 3),
                Attribute::of_quantity(AttributeType::Time, 2),
            ],
        }],
        choice_two_time_cost: None,
        xp_reward: 2,
        item_reward,
        skill_reward,
    }
}

/// The Flame Statues card, with the first or the second set of rewards.
fn get_flame_statues(is_option_one: bool) -> (r: Peril)
    ensures
        r.name@ == "Flame Statues"@,
        r.xp_reward == 3,
        r.skill_reward.name@ == (if is_option_one { "BACKSTAB"@ } else { "HASTE"@ }),
        box_rules(r.choice_one@) =~= seq![(Some(AttributeKind::Magic), 8i8, false, false)],
        r.choice_one_time_cost == Some(3i8),
        box_rules(r.choice_two@) =~= seq![(Some(AttributeKind::Agility), 14i8, false, false)],
        records(r.item_reward@) =~= (if is_option_one { seq![(AttributeKind::Magic, Some(1usize), None::<i8>)] } else { seq![(AttributeKind::Strength, Some(1usize), None::<i8>)] }),
        r.choice_two_time_cost == None::<i8>,
{
    let item_reward = if is_option_one {
        vec![Attribute::of_quantity(AttributeType::Magic, 1)]
    } else {
        vec![Attribute::of_quantity(AttributeType::Strength, 1)]
    };
    let skill_reward = if is_option_one {
        Skill {
            name: String::from_str("BACKSTAB"),
            description: Some(String::from_str("Roll 2 x STRENGTH dice.")),
            requirements: Some(Attribute::of_quantity(AttributeType::Agility, 1)),
            effect: Effect::Roll(vec![Attribute::of_quantity(AttributeType::Strength, 2)]),
            encounters: vec![Encounter::Combat, Encounter::Boss],
        }
    } else {
        Skill {
            name: String::from_str("HASTE"),
            description: Some(String::from_str("Roll 2 x AGILITY dice.")),
            requirements: Some(Attribute {
                attribute: AttributeType::Magic,
                quantity: Some(1),
                value: Some(3),
            }),
            effect: Effect::Gain(vec![Attribute::of_quantity(AttributeType::Agility, 2)]),
            encounters: vec![Encounter::Combat, Encounter::Boss],
        }
    };

    Peril {
        name: String::from_str("Flame Statues"),
        choice_one: vec![ChallengeBox {
            dice_type: Some(AttributeType::Magic),
            single_dice: false,
            total_value: 8,
            priority: false,
            consequences: vec![
                Attribute::of_quantity(AttributeType::Health, 2),
                Attribute::of_quantity(AttributeType::Time, 3),
            ],
        }],
        choice_one_time_cost: Some(3),
        choice_two: vec![ChallengeBox {
            dice_type: Some(AttributeType::Agility),
            single_dice: false,
            total_value: 14,
            priority: false,
            consequences: vec![
                Attribute::of_quantity(AttributeType::Health, 3),
                Attribute::of_quantity(AttributeType::Time, 1),
            ],
        }],
        choice_two_time_cost: None,
        xp_reward: 3,
        item_reward,
        skill_reward,
    }
}

/// The Spiked Log card, with the first or the second set of rewards.
fn get_spiked_log(is_option_one: bool) -> (r: Peril)
    ensures
        r.name@ == "Spiked Log"@,
        r.xp_reward == 3,
        r.skill_reward.name@ == (if is_option_one { "CLEAVE"@ } else { "STATIC BURST"@ }),
        box_rules(r.choice_one@) =~= seq![(Some(AttributeKind::Strength), 8i8, false, false)],
        r.choice_one_time_cost == Some(2i8),
        box_rules(r.choice_two@) =~= seq![(Some(AttributeKind::Agility), 14i8, false, false)],
        records(r.item_reward@) =~= seq![(AttributeKind::Agility, Some(1usize), None::<i8>)],
        r.choice_two_time_cost == None::<i8>,
{
    let skill_reward = if is_option_one {
        Skill {
            name: String::from_str("CLEAVE"),
            description: Some(String::from_str("Increase up to four of your dice by 1 each.")),
            requirements: Some(Attribute::of_quantity(AttributeType::Strength, 1)),
            effect: Effect::Increase(4),
            encounters: vec![Encounter::Combat, Encounter::Boss],
        }
    } else {
        Skill {
            name: String::from_str("STATIC BURST"),
            description: Some(String::from_str("Gain a value 4 STRENGTH and a value 4 AGILITY. Then, increase one of your dice by 1.")),
            requirements: Some(Attribute {
                attribute: AttributeType::Magic,
                quantity: Some(1),
                value: Some(4),
            }),
            effect: Effect::Gain(vec![Attribute {
                attribute: AttributeType::Strength,
                quantity: Some(1),
                value: Some(4),
            }, Attribute {
                attribute: AttributeType::Agility,
                quantity: Some(1),
                value: Some(4),
            }]),
            encounters: vec![Encounter::Combat, Encounter::Boss],
        }
    };

    Peril {
        name: String::from_str("Spiked Log"),
        choice_one: vec![ChallengeBox {
            dice_type: Some(AttributeType::Strength),
            single_dice: false,
            total_value: 8,
            priority: false,
            consequences: vec![
                Attribute::of_quantity(AttributeType::Health, 3),
                Attribute::of_quantity(AttributeType::Time, 1),
            ],
        }],
        choice_one_time_cost: Some(2),
        choice_two: vec![ChallengeBox {
            dice_type: Some(AttributeType::Agility),
            single_dice: false,
            total_value: 14,
            priority: false,
            consequences: vec![
                Attribute::of_quantity(AttributeType::Health, 3),
                Attribute::of_quantity(AttributeType::Time, 2),
            ],
        }],
        choice_two_time_cost: None,
        xp_reward: 3,
        item_reward: vec![Attribute::of_quantity(AttributeType::Agility, 1)],
        skill_reward,
    }
}

/// The Bear Traps card, with the first or the second set of rewards.
fn get_bear_traps(is_option_one: bool) -> (r: Peril)
    ensures
        r.name@ == "Bear Traps"@,
        r.xp_reward == 2,
        r.skill_reward.name@ == (if is_option_one { "MANA"@ } else { "INVISIBILITY"@ }),
        box_rules(r.choice_one@) =~= seq![(Some(AttributeKind::Agility), 6i8, false, false)],
        r.choice_one_time_cost == Some(3i8),
        box_rules(r.choice_two@) =~= seq![(Some(AttributeKind::Agility), 11i8, false, false)],
        records(r.item_reward@) =~= (if is_option_one { seq![(AttributeKind::Magic, Some(1usize), None::<i8>)] } else { seq![(AttributeKind::Agility, Some(1usize), None::<i8>)] }),
        r.choice_two_time_cost == None::<i8>,
{
    let item_reward = if is_option_one {
        vec![Attribute::of_quantity(AttributeType::Magic, 1)]
    } else {
        vec![Attribute::of_quantity(AttributeType::Agility, 1)]
    };
    let skill_reward = if is_option_one {
        Skill {
            name: String::from_str("MANA"),
            description: Some(String::from_str("Roll 3 x MAGIC dice.")),
            requirements: Some(Attribute::of_quantity(AttributeType::Potion, 1)),
            effect: Effect::Roll(vec![Attribute::of_quantity(AttributeType::Magic, 3)]),
            encounters: vec![Encounter::Combat, Encounter::Peril, Encounter::Boss],
        }
    } else {
        Skill {
            name: String::from_str("INVISIBILITY"),
            description: Some(String::from_str(
                "Spend 2 x TIME before an encounter. Skip to the Claim Loot phase.",
            )),
            requirements: Some(Attribute::of_quantity(AttributeType::Potion, 1)),
            effect: Effect::Skip(Attribute::of_quantity(AttributeType::Time, 2)),
            encounters: vec![Encounter::Combat, Encounter::Peril, Encounter::Boss],
        }
    };

    Peril {
        name: String::from_str("Bear Traps"),
        choice_one: vec![ChallengeBox {
            dice_type: Some(AttributeType::Agility),
            single_dice: false,
            total_value: 6,
            priority: false,
            consequences: vec![
                Attribute::of_quantity(AttributeType::Health, 2),
                Attribute::of_quantity(AttributeType::Time, 1),
            ],
        }],
        choice_one_time_cost: Some(3),
        choice_two: vec![ChallengeBox {
            dice_type: Some(AttributeType::Agility),
            single_dice: false,
            total_value: 11,
            priority: false,
            consequences: vec![
                Attribute::of_quantity(AttributeType::Health, 3),
                Attribute::of_quantity(AttributeType::Time, 2),
            ],
        }],
        choice_two_time_cost: None,
        xp_reward: 2,
        item_reward,
        skill_reward,
    }
}

/// The Pit of Spikes card, with the first or the second set of rewards.
fn get_pit_of_spikes(is_option_one: bool) -> (r: Peril)
    ensures
        r.name@ == "Pit of Spikes"@,
        r.xp_reward == 3,
        r.skill_reward.name@ == (if is_option_one { "DEXTERITY"@ } else { "ARMOR CRUSH"@ }),
        box_rules(r.choice_one@) =~= seq![(Some(AttributeKind::Strength), 8i8, false, false)],
        r.choice_one_time_cost == Some(3i8),
        box_rules(r.choice_two@) =~= seq![(Some(AttributeKind::Agility), 14i8, false, false)],
        records(r.item_reward@) =~= (if is_option_one { seq![(AttributeKind::Strength, Some(1usize), None::<i8>)] } else { seq![(AttributeKind::Magic, Some(1usize), None::<i8>)] }),
        r.choice_two_time_cost == None::<i8>,
{
    let item_reward = if is_option_one {
        vec![Attribute::of_quantity(AttributeType::Strength, 1)]
    } else {
        vec![Attribute::of_quantity(AttributeType::Magic, 1)]
    };
    let skill_reward = if is_option_one {
        Skill {
            name: String::from_str("DEXTERITY"),
            description: Some(String::from_str("Gain a value 6 AGILITY dice")),
            requirements: Some(Attribute::of_quantity(AttributeType::Agility, 1)),
            effect: Effect::Gain(vec![Attribute {
                attribute: AttributeType::Agility,
                value: Some(6),
                quantity: Some(1),
            }]),
            encounters: vec![Encounter::Combat, Encounter::Boss],
        }
    } else {
        Skill {
            name: String::from_str("ARMOR CRUSH"),
            description: Some(String::from_str(
                "Gain a value 6 HEROIC dice. You can only use it to cover a box with PRIORITY.",
            )),
            requirements: Some(Attribute::of_quantity(AttributeType::Strength, 1)),
            effect: Effect::Gain(vec![Attribute {
                attribute: AttributeType::Heroic,
                quantity: Some(1),
                value: Some(6),
            }]),
            encounters: vec![Encounter::Combat, Encounter::Boss],
        }
    };

    Peril {
        name: String::from_str("Pit of Spikes"),
        choice_one: vec![ChallengeBox {
            dice_type: Some(AttributeType::Strength),
            single_dice: false,
            total_value: 8,
            priority: false,
            consequences: vec![
                Attribute::of_quantity(AttributeType::Health, 2),
                Attribute::of_quantity(AttributeType::Time, 2),
            ],
        }],
        choice_one_time_cost: Some(3),
        choice_two: vec![ChallengeBox {
            dice_type: Some(AttributeType::Agility),
            single_dice: false,
            total_value: 14,
            priority: false,
            consequences: vec![
                Attribute::of_quantity(AttributeType::Health, 3),
                Attribute::of_quantity(AttributeType::Time, 2),
            ],
        }],
        choice_two_time_cost: None,
        xp_reward: 3,
        item_reward,
        skill_reward,
    }
}

/// The Force Wall card, with the first or the second set of rewards.
fn get_force_wall(is_option_one: bool) -> (r: Peril)
    ensures
        r.name@ == "Force Wall"@,
        r.xp_reward == 4,
        r.skill_reward.name@ == (if is_option_one { "CRUSHING FIST"@ } else { "POISON"@ }),
        box_rules(r.choice_one@) =~= seq![(Some(AttributeKind::Agility), 11i8, false, false)],
        r.choice_one_time_cost == Some(3i8),
        box_rules(r.choice_two@) =~= seq![(Some(AttributeKind::Magic), 14i8, false, false)],
        records(r.item_reward@) =~= (if is_option_one { seq![(AttributeKind::Strength, Some(1usize), None::<i8>), (AttributeKind::Health, Some(1usize), None::<i8>)] } else { seq![(AttributeKind::Magic, Some(1usize), None::<i8>), (AttributeKind::Health, Some(1usize), None::<i8>)] }),
        r.choice_two_time_cost == None::<i8>,
{
    let item_reward = if is_option_one {
        vec![
            Attribute::of_quantity(AttributeType::Strength, 1),
            Attribute::of_quantity(AttributeType::Health, 1),
        ]
    } else {
        vec![
            Attribute::of_quantity(AttributeType::Magic, 1),
            Attribute::of_quantity(AttributeType::Health, 1),
        ]
    };
    let skill_reward = if is_option_one {
        Skill {
            name: String::from_str("CRUSHING FIST"),
            description: Some(String::from_str("Gain 2 x STRENGTH with value of 6.")),
            requirements: Some(Attribute {
                attribute: AttributeType::Magic,
                quantity: Some(1),
                value: Some(6),
            }),
            effect: Effect::Gain(vec![Attribute {
                attribute: AttributeType::Strength,
                quantity: Some(2),
                value: Some(6),
            }]),
            encounters: vec![Encounter::Combat, Encounter::Boss],
        }
    } else {
        Skill {
            name: String::from_str("POISON"),
            description: Some(String::from_str("Prevent up to 2 x TIME.")),
            requirements: Some(Attribute::of_quantity(AttributeType::Agility, 1)),
            effect: Effect::Prevent(AttributeType::Time),
            encounters: vec![Encounter::Combat, Encounter::Boss],
        }
    };

    Peril {
        name: String::from_str("Force Wall"),
        choice_one: vec![ChallengeBox {
            dice_type: Some(AttributeType::Agility),
            single_dice: false,
            total_value: 11,
            priority: false,
            consequences: vec![
                Attribute::of_quantity(AttributeType::Health, 2),
                Attribute::of_quantity(AttributeType::Time, 4),
            ],
        }],
        choice_one_time_cost: Some(3),
        choice_two: vec![ChallengeBox {
            dice_type: Some(AttributeType::Magic),
            single_dice: false,
            total_value: 14,
            priority: false,
            consequences: vec![
                Attribute::of_quantity(AttributeType::Health, 4),
                Attribute::of_quantity(AttributeType::Time, 2),
            ],
        }],
        choice_two_time_cost: None,
        xp_reward: 4,
        item_reward,
        skill_reward,
    }
}
} // verus!
