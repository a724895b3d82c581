pub mod codec;
pub mod models;
pub mod role;
pub mod text;
