pub mod add;
pub mod add_metadata;
pub mod api;
pub mod attachment;
pub mod cli;
pub mod client;
pub mod commands;
pub mod config;
pub mod date;
pub mod error;
pub mod item;
pub mod parse;
pub mod json;
pub mod output;
pub mod request;
pub mod text;
pub mod update;
pub mod write;
