pub mod user;
pub mod token;
