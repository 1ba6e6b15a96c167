pub mod client;
pub mod codec;
pub mod error;
pub mod graphics;
pub mod logger;
pub mod network_message;
pub mod protocol;
pub mod server;
pub mod text;
