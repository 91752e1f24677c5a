pub mod animation;
pub mod enemy;
pub mod flow;
pub mod input;
pub mod interactables;
pub mod layers;
pub mod map;
pub mod movement;
pub mod render;
pub mod tiled;
pub mod wallet;
