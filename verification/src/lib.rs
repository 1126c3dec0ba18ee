pub mod cli;
pub mod commands;
pub mod consistency;
pub mod date;
pub mod document;
pub mod engine;
pub mod error;
pub mod identity;
pub mod models;
pub mod renderer;
pub mod store;
pub mod store_laws;
pub mod text;
pub mod ui;
