//! Conversion between provider-agnostic chat conversations and the wire
//! format of OpenAI-compatible chat-completion endpoints.
//!
//! - [`traits`] and [`tools`] hold the provider-agnostic types.
//! - [`openai_wire`] holds the wire types and the message encoder, with the
//!   splitter for inline image markers.
//! - [`serialize`] says which JSON document each wire value is sent as, and
//!   builds it.
//! - [`azure`] holds the Azure OpenAI provider: URLs, requests and the
//!   response decoder.
//! - [`text`] holds the character-sequence primitives that the others scan
//!   text with.
//! - [`json`] and [`ids`] state what is taken on trust of `serde_json` and
//!   `uuid`; everything else is proved from that.
//!
//! Nothing here performs I/O.

pub mod azure;
pub mod ids;
pub mod json;
pub mod openai_wire;
pub mod serialize;
pub mod text;
pub mod tools;
pub mod traits;
