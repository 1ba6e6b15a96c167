pub mod display;
pub mod entity;
pub mod gpu;
pub mod protocol_handler;
