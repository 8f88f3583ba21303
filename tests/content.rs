use dice_dungeon::dungeon::Dungeon;
use dice_dungeon::game_setup::{get_all_combats, get_all_perils};
use dice_dungeon::hero::Effect;

#[test]
fn all_combats_in_pairs() {
    let combats = get_all_combats();
    assert_eq!(combats.len(), 24);
    assert_eq!(combats[0].name, "Goblin");
    assert_eq!(combats[0].skill_reward.name, "DODGE");
    assert_eq!(combats[1].skill_reward.name, "SHIMMERBLAST");
    assert_eq!(combats[23].name, "Wraith");
    assert!(matches!(combats[0].special_ability, Effect::Swarm));
    let totals: Vec<i8> = combats[0].challenges.iter().map(|c| c.total_value).collect();
    assert_eq!(totals, vec![4, 3, 4, 4, 5]);
    for pair in combats.chunks(2) {
        assert_eq!(pair[0].name, pair[1].name);
        assert_eq!(pair[0].xp_reward, pair[1].xp_reward);
    }
}

#[test]
fn all_perils_in_pairs() {
    let perils = get_all_perils();
    assert_eq!(perils.len(), 20);
    assert_eq!(perils[0].name, "Rune Puzzle");
    assert_eq!(perils[0].skill_reward.name, "CLARITY");
    assert_eq!(perils[1].skill_reward.name, "PERSISTENCE");
    assert_eq!(perils[0].choice_one_time_cost, Some(2));
    assert_eq!(perils[19].name, "Force Wall");
    for pair in perils.chunks(2) {
        assert_eq!(pair[0].name, pair[1].name);
    }
}

#[test]
fn dungeons_have_three_levels() {
    let dungeons = [
        Dungeon::get_phoenix_den(),
        Dungeon::get_dragons_cave(),
        Dungeon::get_hydras_reef(),
        Dungeon::get_yetis_cavern(),
        Dungeon::get_lichs_tomb(),
        Dungeon::get_minotaurs_maze(),
    ];
    for d in &dungeons {
        for lvl in 1i8..=3 {
            assert!(d.peril_challenges.contains_key(&lvl));
            assert!(d.combat_challenges.contains_key(&lvl));
        }
        assert_eq!(d.peril_challenges.len(), 3);
    }
    assert_eq!(dungeons[0].name, "Phoenix's Den");
    assert_eq!(dungeons[0].difficulty, 2);
    assert_eq!(dungeons[0].combat_challenges[&1].len(), 2);
}
