pub mod chain_path;
pub mod codec;
pub mod error;
pub mod laws;
pub mod message;
pub mod session;
