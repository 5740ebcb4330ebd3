pub mod chunking;
pub mod device;
pub mod ids;
pub mod message;
pub mod message_laws;
pub mod numeric;
pub mod outbound;
pub mod text;
pub mod session;
pub mod clock;
pub mod control;
pub mod ws_event;
pub mod transfer;
pub mod store;
pub mod transport;
pub mod config;
pub mod security;
pub mod status;
