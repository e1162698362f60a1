//! A group chat: clients send text, files and images to each other through a server; a
//! web front end and a database keep the history. This crate holds the verified rules of
//! the chat; the programs around it do the reading and writing.
pub mod chat;
pub mod client;
pub mod command;
pub mod error;
pub mod frame;
pub mod frontend;
pub mod interactive;
pub mod location;
pub mod login_form;
pub mod logging_in;
pub mod message;
pub mod my_error;
pub mod parse_command;
pub mod parse_csv;
pub mod parse_execute;
pub mod server;
pub mod task;
pub mod text;
pub mod web;
