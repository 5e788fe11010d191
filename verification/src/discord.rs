//! What the bot does on the chat service: the commands it offers and the
//! gateway events it answers.

pub mod client;
pub mod commands;
pub mod handler;
