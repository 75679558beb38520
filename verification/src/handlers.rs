//! How the controller reacts to each command and event.
pub mod chat_client;
pub mod communication_server;
pub mod drone;
pub mod gui;
pub mod media_client;
pub mod media_server;
pub mod text_server;
pub mod routing;
