//! Rules for the characters of the game: how keyboard input becomes
//! movement actions, and how those actions change a character's velocity.

pub mod character_controller;
