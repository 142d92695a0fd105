pub mod jwt;
pub mod laws;
pub mod model;
pub mod password;
pub mod payload;
pub mod services;
pub mod signer;
pub mod utils;
pub mod whitelist;
