//! A Telegram bot that keeps a list of text items: it reads the command that
//! each update carries, looks up its handler in a command table, and decides
//! the reply and the change of the item table. The network and the table
//! itself live outside this library.
pub mod commands;
pub mod flows;
pub mod handlers;
pub mod items;
pub mod messages;
pub mod text;
pub mod update;
