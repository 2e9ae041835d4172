//! A LAN-local file and clipboard exchange service: path tokens, collision-free
//! upload names, clipboard payload selection, service records and HTTP routing.

pub mod codec;
pub mod text;
pub mod paths;
pub mod clipboard;
pub mod advertise;
pub mod server;
pub mod config;
