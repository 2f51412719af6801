//! An in-memory store of todo items with validated inputs and typed errors.

pub mod errors;
pub mod laws;
pub mod model;
pub mod models;
pub mod state;
pub mod store;
pub mod title;

pub use state::AppState;
