pub mod commands;
pub mod drakentemmer;
pub mod ids;
pub mod key_type;
pub mod permissions;
pub mod registered_server;
pub mod response;
pub mod standby;
pub mod text;
pub mod websocket;
