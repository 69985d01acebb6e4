//! Session and dispatch core of a chat bot that runs turn-based chess games.

pub mod cache;
pub mod commands;
pub mod ids;
pub mod moves;
pub mod session;
pub mod supervisor;
pub mod text;
