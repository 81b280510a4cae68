pub mod config;
pub mod layout;
pub mod menu;
pub mod render;
pub mod session;
pub mod stats;
pub mod text;
pub mod title;
pub mod typing;
