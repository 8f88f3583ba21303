use dice_dungeon::encounter::Encounter;
use dice_dungeon::hero::{Attribute, AttributeType, Effect, Hero, HeroError, LevelEntry, Skill};
use std::cmp::Ordering;

fn quantity_of(hero: &Hero, kind: AttributeType) -> Option<usize> {
    hero.attributes
        .iter()
        .find(|a| a.attribute == kind)
        .and_then(|a| a.quantity)
}

fn skill(name: &str) -> Skill {
    Skill {
        name: String::from(name),
        description: None,
        requirements: None,
        effect: Effect::Heal(1),
        encounters: vec![Encounter::Combat],
    }
}

fn level(n: i8, bonus: i8) -> LevelEntry {
    LevelEntry { level: n, items: 1, skills: 1, potions: 1, encounter_bonus: bonus, xp_to_level_up: 5 }
}

#[test]
fn strength_up_then_too_far_down() {
    let mut hero = Hero::get_mage();
    assert_eq!(quantity_of(&hero, AttributeType::Strength), Some(1));
    assert!(matches!(hero.change_attribute_quantity(AttributeType::Strength, 1), Ok(2)));
    assert_eq!(quantity_of(&hero, AttributeType::Strength), Some(2));
    assert!(matches!(
        hero.change_attribute_quantity(AttributeType::Strength, -5),
        Err(HeroError::QuantityNegative)
    ));
    assert_eq!(quantity_of(&hero, AttributeType::Strength), Some(2));
}

#[test]
fn three_descents_then_refused() {
    let mut hero = Hero::get_mage();
    assert_eq!(hero.current_level, 1);
    assert_eq!(hero.potions, 1);
    assert_eq!(hero.encounter_bonus, 0);
    let expected = [(2, 2, 1), (3, 3, 1), (4, 4, 2)];
    for (lvl, potions, bonus) in expected {
        assert!(matches!(hero.descend_level(), Ok(l) if l == lvl));
        assert_eq!(hero.current_level, lvl);
        assert_eq!(hero.potions, potions);
        assert_eq!(hero.encounter_bonus, bonus);
    }
    assert!(matches!(hero.descend_level(), Err(HeroError::LevelTooHigh)));
    assert_eq!(hero.current_level, 4);
    assert_eq!(hero.potions, 4);
    assert_eq!(hero.encounter_bonus, 2);
}

#[test]
fn duplicate_shield_aura_refused() {
    let mut hero = Hero::get_mage();
    let mut again = skill("SHIELD AURA");
    again.effect = Effect::Prevent(AttributeType::Health);
    assert!(matches!(hero.add_skill(again), Err(HeroError::DuplicateSkill)));
    assert_eq!(hero.skills.len(), 1);
    assert_eq!(hero.skills[0].name, "SHIELD AURA");
}

#[test]
fn quantity_round_trip_on_every_kind() {
    for kind in [AttributeType::Strength, AttributeType::Agility, AttributeType::Magic, AttributeType::Health] {
        let mut hero = Hero::get_warrior();
        let before = quantity_of(&hero, kind.clone()).unwrap();
        assert!(matches!(hero.change_attribute_quantity(kind.clone(), 7), Ok(n) if n == before + 7));
        assert!(matches!(hero.change_attribute_quantity(kind.clone(), -7), Ok(n) if n == before));
        assert_eq!(quantity_of(&hero, kind), Some(before));
    }
}

#[test]
fn lowering_to_exactly_zero_is_allowed() {
    let mut hero = Hero::get_archer();
    assert!(matches!(hero.change_attribute_quantity(AttributeType::Agility, -3), Ok(0)));
    assert_eq!(quantity_of(&hero, AttributeType::Agility), Some(0));
    assert!(matches!(
        hero.change_attribute_quantity(AttributeType::Agility, -1),
        Err(HeroError::QuantityNegative)
    ));
    assert_eq!(quantity_of(&hero, AttributeType::Agility), Some(0));
}

#[test]
fn missing_kind_is_not_found() {
    let mut hero = Hero::get_rogue();
    assert!(matches!(
        hero.change_attribute_quantity(AttributeType::Time, 1),
        Err(HeroError::AttributeNotFound)
    ));
    assert!(matches!(
        hero.change_attribute_quantity(AttributeType::Value(vec![1, 2]), -1),
        Err(HeroError::AttributeNotFound)
    ));
    assert_eq!(hero.attributes.len(), 4);
    assert_eq!(quantity_of(&hero, AttributeType::Strength), Some(1));
}

#[test]
fn unset_quantity_counts_as_zero_and_face_value_stays() {
    let mut hero = Hero::get_paladin();
    hero.attributes.push(Attribute::of_value(AttributeType::Value(vec![1, 2]), 6));
    assert!(matches!(
        hero.change_attribute_quantity(AttributeType::Value(vec![1, 2]), 3),
        Ok(3)
    ));
    let rec = hero.attributes.last().unwrap();
    assert_eq!(rec.quantity, Some(3));
    assert_eq!(rec.value, Some(6));
    let mut other = Hero::get_paladin();
    other.attributes.push(Attribute::of_value(AttributeType::Value(vec![1, 2]), 6));
    assert!(matches!(
        other.change_attribute_quantity(AttributeType::Value(vec![1, 2]), -1),
        Err(HeroError::QuantityNegative)
    ));
    assert_eq!(other.attributes.last().unwrap().quantity, None);
}

#[test]
fn new_skill_is_appended_last() {
    let mut hero = Hero::get_caliana();
    assert!(hero.add_skill(skill("CLEAVE")).is_ok());
    assert!(hero.add_skill(skill("KITING")).is_ok());
    let names: Vec<&str> = hero.skills.iter().map(|s| s.name.as_str()).collect();
    assert_eq!(names, vec!["FAERIE FIRE", "CLEAVE", "KITING"]);
}

#[test]
fn skill_names_are_compared_exactly() {
    let mut hero = Hero::get_mage();
    assert!(hero.add_skill(skill("shield aura")).is_ok());
    assert!(matches!(hero.add_skill(skill("shield aura")), Err(HeroError::DuplicateSkill)));
    assert_eq!(hero.skills.len(), 2);
}

#[test]
fn descent_refused_at_top_changes_nothing() {
    let mut hero = Hero::get_rogue();
    hero.current_level = 4;
    hero.potions = 9;
    hero.encounter_bonus = 5;
    assert!(matches!(hero.descend_level(), Err(HeroError::LevelTooHigh)));
    assert_eq!((hero.current_level, hero.potions, hero.encounter_bonus), (4, 9, 5));
}

#[test]
fn descent_over_a_gap_in_the_table_is_refused() {
    let mut hero = Hero::get_rogue();
    hero.levels = vec![level(1, 0), level(3, 7)];
    assert!(matches!(hero.descend_level(), Err(HeroError::AttributeNotFound)));
    assert_eq!((hero.current_level, hero.potions, hero.encounter_bonus), (1, 1, 0));
}

#[test]
fn descent_with_an_empty_table() {
    let mut hero = Hero::get_rogue();
    hero.levels = Vec::new();
    assert!(matches!(hero.descend_level(), Err(HeroError::LevelTooHigh)));
    hero.current_level = 0;
    assert!(matches!(hero.descend_level(), Err(HeroError::AttributeNotFound)));
    assert_eq!(hero.current_level, 0);
}

#[test]
fn descent_takes_the_bonus_of_the_new_level() {
    let mut hero = Hero::get_archer();
    hero.levels = vec![level(3, 9), level(1, 0), level(2, 4)];
    assert!(matches!(hero.descend_level(), Ok(2)));
    assert_eq!(hero.encounter_bonus, 4);
    assert!(matches!(hero.descend_level(), Ok(3)));
    assert_eq!(hero.encounter_bonus, 9);
    assert_eq!(hero.potions, 3);
}

#[test]
fn presets_start_alike() {
    let presets = [
        (Hero::get_mage(), "Mage", [1, 2, 4, 5]),
        (Hero::get_caliana(), "Caliana", [1, 1, 5, 0]),
        (Hero::get_paladin(), "Paladin", [3, 1, 3, 5]),
        (Hero::get_warrior(), "Warrior", [4, 2, 1, 6]),
        (Hero::get_rogue(), "Rogue", [1, 4, 2, 5]),
        (Hero::get_archer(), "Archer", [2, 3, 2, 5]),
    ];
    for (hero, name, q) in presets {
        assert_eq!(hero.name, name);
        let got: Vec<Option<usize>> = hero.attributes.iter().map(|a| a.quantity).collect();
        assert_eq!(got, q.iter().map(|n| Some(*n)).collect::<Vec<_>>());
        assert_eq!(hero.levels.len(), 4);
        assert_eq!(hero.levels[3].encounter_bonus, 2);
        assert_eq!(hero.levels[2].xp_to_level_up, 10);
        assert_eq!((hero.current_level, hero.potions, hero.encounter_bonus), (1, 1, 0));
        assert_eq!(hero.skills.len(), 1);
    }
}

#[test]
fn display_order_of_kinds() {
    assert_eq!(AttributeType::Strength.compare(&AttributeType::Agility), Ordering::Less);
    assert_eq!(AttributeType::Health.compare(&AttributeType::Magic), Ordering::Greater);
    assert_eq!(AttributeType::Default.compare(&AttributeType::Time), Ordering::Greater);
    assert_eq!(AttributeType::Door.compare(&AttributeType::Heroic), Ordering::Less);
    assert_eq!(AttributeType::Health.compare(&AttributeType::Door), Ordering::Less);
    assert_eq!(
        AttributeType::Value(vec![1, 2]).compare(&AttributeType::Value(vec![1, 3])),
        Ordering::Less
    );
    assert_eq!(
        AttributeType::Value(vec![1, 2]).compare(&AttributeType::Value(vec![1])),
        Ordering::Greater
    );
    assert_eq!(
        AttributeType::Value(vec![4]).compare(&AttributeType::Value(vec![4])),
        Ordering::Equal
    );
    assert!(AttributeType::Value(vec![4]) == AttributeType::Value(vec![4]));
    assert!(AttributeType::Value(vec![4]) != AttributeType::Value(vec![5]));
    assert!(AttributeType::Magic != AttributeType::Health);
}

#[test]
fn error_message() {
    assert_eq!(HeroError::ValueNotFound.to_text(), "error updating the Hero stats");
}
