//! A two-dimensional point-mass physics sandbox: fixed-tick integration,
//! circle collisions, scrubbing through recorded history, and pointer-driven
//! interaction, all in deterministic fixed-point arithmetic.

pub mod scalar;
pub mod vector;
pub mod angle;
pub mod shape;
pub mod state;
pub mod event;
pub mod polygon;
pub mod object;
pub mod stamp;
pub mod sim_state;
pub mod simulation;
pub mod plot;
pub mod laws;
pub mod manager;
pub mod graphics;
pub mod template;
