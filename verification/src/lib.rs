//! XMPP protocol core: identifiers, stanzas and stream events, their XML form,
//! and the client connection state machine.
pub mod text;
pub mod jid;
pub mod ns;
pub mod config;
pub mod credentials;
pub mod element;
pub mod xml;
pub mod events;
pub mod ids;
pub mod plain;
pub mod pending;
pub mod connection;
pub mod connect;
pub mod codec;
pub mod stream;
pub mod xmpp_parser;
pub mod parser;
pub mod packet;
pub mod derive;
