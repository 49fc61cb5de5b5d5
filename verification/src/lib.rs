//! Turn-based tank maze: tiles, maps, movement, scripted turns, menus and
//! the host-code exchange used to connect two players.

pub mod game_types;
pub mod map;
pub mod tank;
pub mod sidebar;
pub mod network;
pub mod gamestate;
pub mod maze;
pub mod menu;
pub mod multiplayer_menu;
