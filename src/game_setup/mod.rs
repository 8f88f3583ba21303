use crate::encounter::{Combat, Peril};
use vstd::prelude::*;

pub mod combat;
pub mod peril;

verus! {

/// Every peril card, each with its first and then its second set of
/// rewards.
pub fn get_all_perils() -> (r: Vec<Peril>)
    ensures
        r@.map_values(|p: Peril| p.name@) =~= seq!["Rune Puzzle"@, "Rune Puzzle"@, "Locked Door"@, "Locked Door"@, "Cave-in"@, "Cave-in"@, "Boulder"@, "Boulder"@, "Arrow Wall"@, "Arrow Wall"@, "Flame Statues"@, "Flame Statues"@, "Spiked Log"@, "Spiked Log"@, "Bear Traps"@, "Bear Traps"@, "Pit of Spikes"@, "Pit of Spikes"@, "Force Wall"@, "Force Wall"@],
        r@.map_values(|p: Peril| p.skill_reward.name@) =~= seq!["CLARITY"@, "PERSISTENCE"@, "SHIMMERBLAST"@, "ACCURACY"@, "CRUSHING BLOW"@, "FLAMEWEAVE"@, "CRITICAL STRIKES"@, "VALOR"@, "MANA"@, "DODGE"@, "BACKSTAB"@, "HASTE"@, "CLEAVE"@, "STATIC BURST"@, "MANA"@, "INVISIBILITY"@, "DEXTERITY"@, "ARMOR CRUSH"@, "CRUSHING FIST"@, "POISON"@],
{
    peril::get_all_perils()
}

/// Every monster card, each with its first and then its second skill
/// reward.
pub fn get_all_combats() -> (r: Vec<Combat>)
    ensures
        r@.map_values(|c: Combat| c.name@) =~= seq!["Goblin"@, "Goblin"@, "Ogre"@, "Ogre"@, "Beetle"@, "Beetle"@, "Phantom"@, "Phantom"@, "Bandit"@, "Bandit"@, "Shadow"@, "Shadow"@, "Plague Rat"@, "Plague Rat"@, "Skeleton"@, "Skeleton"@, "Glooping Ooze"@, "Glooping Ooze"@, "Ice Elemental"@, "Ice Elemental"@, "Fire Elemental"@, "Fire Elemental"@, "Wraith"@, "Wraith"@],
        r@.map_values(|c: Combat| c.skill_reward.name@) =~= seq!["DODGE"@, "SHIMMERBLAST"@, "BRUTE FORCE"@, "CHAOTIC AURA"@, "CRUSHING BLOW"@, "ACCURACY"@, "TRIPLE STRIKE"@, "STEADY HANDS"@, "CLEAVE"@, "BACKSTAB"@, "HEROISM"@, "STATIC BURST"@, "FLAMEWEAVE"@, "PERSISTENCE"@, "CLARITY"@, "INVISIBILITY"@, "HEROISM"@, "ARMOR CRUSH"@, "LUCKY FAMILIAR"@, "FLURRY"@, "MANA FONT"@, "CONSISTENCY"@, "DEXTERITY"@, "HASTE"@],
{
    combat::get_all_combats()
}

} // verus!
