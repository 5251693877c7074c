pub mod api;
pub mod frontend;
