//! Session log of an astrophotography workshop: the records it keeps, the rows
//! it shows, and the shared store that holds them between saves.

pub mod analysis;
pub mod file_system;
pub mod log;
pub mod model;
pub mod persist;
pub mod state;
pub mod store;
