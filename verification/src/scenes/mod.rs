//! The three screens of the game: menu, play and result.
pub mod end_scene;
pub mod game_scene;
pub mod menu_scene;
