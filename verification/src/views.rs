pub mod bullets;
pub mod game;
pub mod main_menu;
pub mod shared;
