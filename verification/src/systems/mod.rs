//! The game's rules, apart from drawing and the entity-component plumbing:
//! entity bookkeeping, resources and workers, waves and enemies, towers,
//! recruiting, menus and player input.

pub mod audio;
pub mod color_select;
pub mod colors;
pub mod cursor;
pub mod enemy;
pub mod entity_sync;
pub mod game_state;
pub mod menu;
pub mod menus;
pub mod player_list;
pub mod recruit;
pub mod tower;
pub mod wave_manager_ui;
pub mod worker;
