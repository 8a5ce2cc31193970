pub mod backend;
pub mod client;
pub mod conversation_laws;
pub mod desktop_laws;
pub mod handshake;
pub mod hint;
pub mod ident;
pub mod json;
pub mod keepalive;
pub mod lan_server;
pub mod message_laws;
pub mod path_laws;
pub mod phone_laws;
pub mod protocol;
pub mod registry;
pub mod scanner;
pub mod scanner_laws;
pub mod server;
pub mod server_laws;
pub mod session;
pub mod text;
pub mod text_laws;
pub mod timer;
pub mod timing_laws;
pub mod upkeep_laws;
pub mod view_laws;
