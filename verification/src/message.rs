pub mod models;
pub mod services;
