//! Protocol layer between an editor's JSON-RPC channel and a project analysis
//! engine: inbound message routing, feedback publishing, capability
//! negotiation, and the session state machine that ties them together.
//!
//! The layer performs no I/O and never calls the engine. It decides: given
//! the session state and what just happened, it says which messages go out and
//! which engine operation comes next. A driver around it owns the transport
//! and the engine handle and carries those decisions out.
//!
//! [`adapter::LanguageServerProtocolAdapter`] is the session. [`session`]
//! holds its model, against which every transition is verified, and [`laws`]
//! what follows from that model. [`wire`] and [`decode`] are where the layer
//! meets `lsp_types` and `serde_json`: what those crates compute is taken on
//! trust there and given a name, nothing more.

pub mod adapter;
pub mod capabilities;
pub mod decode;
pub mod diagnostic;
pub mod feedback;
pub mod laws;
pub mod message;
pub mod negotiate;
pub mod outbound;
pub mod publish;
pub mod router;
pub mod session;
pub mod wire;

pub use adapter::LanguageServerProtocolAdapter;
