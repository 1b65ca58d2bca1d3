pub mod adapters;
pub mod context;
pub mod engine;
pub mod settings;
