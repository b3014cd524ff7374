pub mod config;
pub mod connect;
pub mod devices;
pub mod laws;
pub mod library;
pub mod resource;
pub mod screen;
pub mod state;
pub mod table;
pub mod task;
pub mod text;
pub mod version;
