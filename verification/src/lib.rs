//! Game rules, configuration editors and chat-client logic for a small
//! tower-defense project, with their behaviour stated and proved.

pub mod text;
pub mod config;
pub mod search;
pub mod order;
pub mod input;
pub mod tower_manager;
pub mod wave_manager;
pub mod tui;
pub mod systems;
pub mod wasm_tilemap;
