//! Verified game logic of "Just Let Me Sleep": the decisions, counters, timers
//! and texts behind its interface, kept apart from the engine that draws them.

pub mod palette;
pub mod decimal;
pub mod sprite_layer;
pub mod timer;
pub mod score;
pub mod battle;
pub mod buffs;
pub mod interaction;
pub mod prepare;
pub mod vfx;
pub mod settings;
pub mod app_plan;
pub mod camera_vfx;
pub mod game_end_state;
pub mod persistent;
pub mod ui_no_root;
pub mod menus;
