pub mod clock;
pub mod error;
pub mod ident;
pub mod text;
