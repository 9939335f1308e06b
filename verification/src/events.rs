//! Stream events and stanzas exchanged between XMPP entities.
pub mod kinds;
pub mod interface;
pub mod generic;
pub mod presence;
pub mod ping;
pub mod bind;
pub mod message;
pub mod open_stream;
pub mod simple;
pub mod stream_features;
pub mod auth;
