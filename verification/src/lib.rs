pub mod animation;
pub mod engine;
pub mod game;
pub mod input;
pub mod sprite;
