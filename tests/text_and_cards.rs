use dice_dungeon::card::{
    dungeon_card, get_card_top_or_bottom, hero_card, split_line_long_description, surround_with_edge,
};
use dice_dungeon::dungeon::{ChallengeBox, Dungeon};
use dice_dungeon::encounter::Encounter;
use dice_dungeon::hero::{attributes_to_text, Attribute, AttributeType, Effect, Hero};
use dice_dungeon::text::{int_to_text, join_texts, nat_to_text};

#[test]
fn numbers_in_decimal() {
    assert_eq!(nat_to_text(0), "0");
    assert_eq!(nat_to_text(7), "7");
    assert_eq!(nat_to_text(1024), "1024");
    assert_eq!(nat_to_text(u64::MAX), "18446744073709551615");
    assert_eq!(int_to_text(-128), "-128");
    assert_eq!(int_to_text(42), "42");
}

#[test]
fn joining() {
    let parts = vec![String::from("a"), String::from("bc"), String::from("")];
    assert_eq!(join_texts(&parts, ", "), "a, bc, ");
    assert_eq!(join_texts(&Vec::new(), ", "), "");
}

#[test]
fn kinds_written_out() {
    assert_eq!(AttributeType::Strength.to_text(), "Strength");
    assert_eq!(AttributeType::Default.to_text(), "Default");
    assert_eq!(AttributeType::Value(vec![1, 2]).to_text(), "Value([1, 2])");
    assert_eq!(AttributeType::Value(vec![-3]).to_text(), "Value([-3])");
    assert_eq!(Encounter::Boss.to_text(), "Boss");
}

#[test]
fn records_written_out() {
    assert_eq!(Attribute::of_quantity(AttributeType::Strength, 3).to_text().unwrap(), "3 x Strength");
    assert_eq!(Attribute::of_value(AttributeType::Magic, 5).to_text().unwrap(), "Magic value 5");
    let both = Attribute { attribute: AttributeType::Magic, quantity: Some(1), value: Some(6) };
    assert!(both.to_text().is_none());
    assert!(Attribute::default().to_text().is_none());
    let list = vec![
        Attribute::of_quantity(AttributeType::Health, 1),
        Attribute::of_quantity(AttributeType::Time, 2),
    ];
    assert_eq!(attributes_to_text(&list).unwrap(), "1 x Health, 2 x Time");
    let bad = vec![Attribute::of_quantity(AttributeType::Health, 1), both];
    assert!(attributes_to_text(&bad).is_none());
}

#[test]
fn effects_written_out() {
    let gain = Effect::Gain(vec![
        Attribute::of_quantity(AttributeType::Strength, 1),
        Attribute::of_quantity(AttributeType::Agility, 1),
    ]);
    assert_eq!(gain.to_text().unwrap(), "Gain: 1 x Strength, 1 x Agility");
    let roll = Effect::Roll(vec![Attribute::of_quantity(AttributeType::Heroic, 1)]);
    assert_eq!(roll.to_text().unwrap(), "Add to pool: 1 x Heroic");
    assert_eq!(Effect::Increase(4).to_text().unwrap(), "Increase one dice by 4");
    assert_eq!(
        Effect::Reroll(AttributeType::Value(vec![1, 2])).to_text().unwrap(),
        "Reroll one Value([1, 2]) dice"
    );
    let change = Effect::Change { attribute_type: AttributeType::Magic, value: 6 };
    assert_eq!(change.to_text().unwrap(), "Set one Magic dice to 6");
    assert_eq!(Effect::Prevent(AttributeType::Health).to_text().unwrap(), "Prevent: Health");
    assert_eq!(Effect::Discard(AttributeType::Time).to_text().unwrap(), "Discard one Time dice");
    assert_eq!(Effect::Heal(2).to_text().unwrap(), "Heal 2 damage");
    let skip = Effect::Skip(Attribute::of_quantity(AttributeType::Time, 3));
    assert_eq!(skip.to_text().unwrap(), "Skip to the Claim Loot phase for 3 x Time");
    assert_eq!(Effect::Value(2, AttributeType::Door).to_text().unwrap(), "X = 2 per Door");
    assert_eq!(Effect::Swarm.to_text().unwrap(), "Swarm: X = 4 per open door, including this one.");
    assert_eq!(Effect::Nothing.to_text().unwrap(), "No effect");
    let bad = Effect::Skip(Attribute::default());
    assert!(bad.to_text().is_none());
}

#[test]
fn challenge_boxes_written_out() {
    let b = ChallengeBox {
        dice_type: Some(AttributeType::Magic),
        total_value: 3,
        single_dice: true,
        priority: true,
        consequences: vec![Attribute::of_quantity(AttributeType::Health, 1)],
    };
    assert_eq!(b.to_text().unwrap(), "*PRIORITY* 1 x Magic \u{2265} 3 OR 1 x Health");
    let c = ChallengeBox {
        dice_type: None,
        total_value: 11,
        single_dice: false,
        priority: false,
        consequences: Vec::new(),
    };
    assert_eq!(c.to_text().unwrap(), "Many any \u{2265} 11 OR nothing");
}

#[test]
fn card_borders() {
    let edge = get_card_top_or_bottom();
    assert_eq!(edge, format!("|{}|\n", "-".repeat(52)));
    let line = surround_with_edge("abc");
    assert_eq!(line, format!("| abc{} |\n", " ".repeat(47)));
    assert_eq!(line.chars().count(), 55);
    let long = "x".repeat(60);
    assert_eq!(surround_with_edge(&long), format!("| {} |\n", long));
    let exact = "y".repeat(50);
    assert_eq!(surround_with_edge(&exact), format!("| {} |\n", exact));
}

#[test]
fn flushing_a_description_line() {
    let mut out = String::from("start\n");
    let mut line = String::from("some words ");
    let mut col: usize = 11;
    split_line_long_description(&mut out, &mut line, &mut col);
    assert_eq!(out, format!("start\n| some words {} |\n", " ".repeat(39)));
    assert_eq!(line, "");
    assert_eq!(col, 0);
}

#[test]
fn mage_card() {
    let card = hero_card(&Hero::get_mage()).unwrap();
    assert_eq!(card, "|----------------------------------------------------|\n| MAGE                                               |\n| 1 x Strength                                       |\n| 2 x Agility                                        |\n| 4 x Magic                                          |\n| 5 x Health                                         |\n|                                                    |\n| Heroic Feat: MANA CHARGE                           |\n| Roll any or all of your dice stored here.          |\n| Store a HEROIC DICE here when you explore or       |\n| flee. You may store up to two dice at a time.      |\n| Combat, Peril, Not Boss                            |\n|                                                    |\n| Skill: SHIELD AURA                                 |\n| Prevent HEALTH.                                    |\n| Requirements: Free skill                           |\n| Prevent: Health                                    |\n| Peril                                              |\n|----------------------------------------------------|\n");
}

#[test]
fn card_name_in_capitals() {
    let card = hero_card(&Hero::get_caliana()).unwrap();
    assert!(card.contains("| CALIANA "));
    assert!(!card.contains("| Caliana "));
    assert!(card.contains("| Requirements: 1 x Magic "));
    assert!(card.contains("| Combat, Peril, Boss "));
}

#[test]
fn card_refused_for_unwritable_record() {
    let mut hero = Hero::get_warrior();
    hero.attributes[0].value = Some(3);
    assert!(hero_card(&hero).is_none());
}

#[test]
fn dungeon_card_lines() {
    let card = dungeon_card(&Dungeon::get_phoenix_den()).unwrap();
    let lines: Vec<&str> = card.lines().collect();
    assert_eq!(lines[1], format!("| PHOENIX'S DEN{} |", " ".repeat(37)));
    assert_eq!(lines[2].trim_end_matches(|c| c == ' ' || c == '|'), "| Difficulty: 2");
    assert_eq!(lines[4].trim_end_matches(|c| c == ' ' || c == '|'), "| Level 1");
    assert_eq!(lines[5].trim_end_matches(|c| c == ' ' || c == '|'), "| Peril:");
    assert_eq!(
        lines[6].trim_end_matches(|c| c == ' ' || c == '|'),
        "| *PRIORITY* 1 x any \u{2265} 3 OR nothing"
    );
    assert_eq!(lines[7].trim_end_matches(|c| c == ' ' || c == '|'), "| Combat:");
    assert_eq!(lines.last().unwrap().len(), 54);
    assert_eq!(lines.iter().filter(|l| l.starts_with("| Level ")).count(), 3);
}
