pub mod frame;
pub mod game;
pub mod snake;
pub mod traits;
