//! A turn-based burrow puzzle: a fixed tile grid, the player Paquerette and the
//! bunnies that flee from her, with every rule of movement stated and proved.
//!
//! `rules` states what a turn does over `LevelView`, the mathematical state of
//! a level; `level_state` carries it out on `LevelState`; `level_text` and
//! `text` read level text; `world` and `config` link burrows into a world.

pub mod config;
pub mod grid;
pub mod item;
pub mod level_state;
pub mod level_text;
pub mod levels;
pub mod position;
pub mod rules;
pub mod text;
pub mod world;

pub use config::{
    level_files_present, links_to_array, tools_to_array, world_from_config, BurrowConfig,
    BurrowLinks, BurrowTools,
};
pub use grid::{Direction, GroundTile, TileItem, Tunnels, LEVEL_HEIGHT, LEVEL_WIDTH};
pub use item::Item;
pub use level_state::{LevelState, MoveRes, TileContent};
pub use level_text::ParseError;
pub use levels::level;
pub use position::Position;
pub use rules::{MoveEffect, MoveError};
pub use text::split_tokens;
pub use world::{Burrow, LevelTemplate, World, WorldError, WorldState};
