//! Voice-channel recording logic of a Discord bot: which user an audio
//! stream belongs to, how the decoded samples of each voice tick are
//! collected per user, what is handed out when a user leaves, the chat
//! replies of the `join` and `leave` commands, and the data models.

pub mod decimal;
pub mod shared_maps;
pub mod voice;
pub mod recording_laws;
pub mod commands;
pub mod models;
pub mod repository;
pub mod interpreter;
pub mod command_laws;
