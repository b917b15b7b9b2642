pub mod config;
pub mod json;
pub mod model;
pub mod provider;
pub mod utils;
