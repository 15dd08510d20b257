//! A fixed-point platforming character controller: a discrete movement state
//! machine and a collision-aware mover, driven one tick at a time.
pub mod fixed;
pub mod vector;
pub mod angle;
pub mod settings;
pub mod state;
pub mod input;
pub mod motion;
pub mod ground;
pub mod wall;
pub mod mover;
