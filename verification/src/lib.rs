//! Data model for the client side of an LSP fragment: the capability tree
//! sent during the `initialize` handshake and the payload of
//! `textDocument/publishDiagnostics` notifications, together with verified
//! decoders and encoders between those structures and a JSON value tree.

pub mod capabilities;
pub mod decode;
pub mod encode;
pub mod json;
pub mod laws;
pub mod types;
