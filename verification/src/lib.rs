//! A client library for the CtrlCmd protocol of EDCB: the wire codec, the records it carries,
//! the requests of each command and the decoding of their responses, the command flows of the
//! `edcb` command line and of the MCP server, and parsers for EDCB's text files.

pub mod error;
pub mod text;
pub mod numbers;
pub mod utf16;
pub mod wire;
pub mod codec;
pub mod datetime;
pub mod types;
pub mod records;
pub mod search_key;
pub mod keys;
pub mod client;
pub mod reservation;
pub mod settings;
pub mod cli;
pub mod sizes;
pub mod flows;
pub mod plain;
pub mod mcp;
pub mod util;
pub mod sections;
pub mod test_support;
pub mod laws;
pub mod layouts;

pub use client::EdcbClient;
pub use error::{EdcbError, Result};
pub use keys::{EventKey, PluginKind, ProgramSearchQuery, ServiceKey};
pub use reservation::build_reservation_from_event;
