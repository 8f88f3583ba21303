//! Content tables and hero bookkeeping for a dice-based dungeon-crawler
//! board game, with the hero's mutation rules proved against their contracts.

pub mod dungeon;
pub mod encounter;
pub mod hero;
pub mod game_setup;
pub mod text;
pub mod card;
