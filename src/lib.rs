//! Carl, a Discord bot: the logic that turns what the gateway and the REST
//! API report about users into replies, and that reads the text commands.
pub mod commands;
pub mod composition;
pub mod directions;
pub mod embed;
pub mod interactions;
pub mod maps;
pub mod presence;
pub mod profile;
pub mod text;
pub mod user;
pub mod user_info;
pub mod user_lookup;
pub mod words;
