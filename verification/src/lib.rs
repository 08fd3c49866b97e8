pub mod active_map;
pub mod common;
pub mod laws;
pub mod routes;
pub mod services;
