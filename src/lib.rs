pub mod cache;
pub mod error;
pub mod model;
pub mod read;
pub mod repo;
pub mod sql;
pub mod state;
pub mod store;
