//! A chat bot that keeps a small file tree per chat: the commands, the
//! dialogue state of each chat, the file tree operations and the replies
//! that the bot sends, all with contracts proved by Verus.
pub mod path;
pub mod filesystem;
pub mod messages;
pub mod keyboard;
pub mod chat_session;
pub mod update;
pub mod command;
pub mod webhook_service;
pub mod file_operation_service;
pub mod command_service;
pub mod chat_session_service;
