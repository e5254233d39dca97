//! The rules of Astro Strike, a vertical space shooter: game phases, health
//! and score, level progression and difficulty, the boss fight, pickups,
//! conversations, palette schemes and recoloring, map layout and tile
//! geometry, sprite-sheet frame stepping, and the asset-file helpers that
//! work on plain bytes.
pub mod animation;
pub mod assets;
pub mod boss;
pub mod combat;
pub mod common;
pub mod destructible;
pub mod dialogue;
pub mod enemy;
pub mod hud;
pub mod level;
pub mod menu;
pub mod palette_grade;
pub mod pickup;
pub mod player;
pub mod random;
pub mod recolor;
pub mod state;
pub mod tilemap;
pub mod ufo;
pub mod vfs;
