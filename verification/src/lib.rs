//! A snake arcade game on a wrap-around grid: the simulation, the menu and
//! the scene state machine, with every rule stated as a contract.

pub mod food;
pub mod game_state;
pub mod game_window;
pub mod input;
pub mod main_menu;
pub mod point;
pub mod renderer;
pub mod snake;
pub mod snake_game;
pub mod text;
