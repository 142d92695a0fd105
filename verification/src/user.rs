pub mod models;
pub mod payload;
pub mod services;
pub mod utils;
