//! Decision core of the drone-network simulation controller.
pub mod controller;
pub mod error;
pub mod handlers;
pub mod laws;
pub mod messages;
pub mod network;
mod random;
pub mod seq_util;
pub mod support;
pub mod user_interaction;
pub mod verify;
