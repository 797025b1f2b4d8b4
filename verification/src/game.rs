pub mod actions;
pub mod buildings;
pub mod citizens;
pub mod errors;
pub mod hashing;
pub mod jobs;
pub mod land;
pub mod log;
pub mod resources;
pub mod state;
