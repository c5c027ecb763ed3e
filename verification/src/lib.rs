//! Game rules for a small 3D action game where you play a toy that has come
//! to life: the pause state machine, the mapping from keyboard state to
//! movement actions, and the velocity changes those actions cause.

pub mod characters;
pub mod pausing;
