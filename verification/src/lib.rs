pub mod arena;
pub mod backend;
pub mod config;
pub mod generator;
pub mod global;
pub mod harness;
pub mod layout;
