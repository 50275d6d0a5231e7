//! Portable ActivityPub protocol core: vocabulary, follow and note decisions,
//! draft-Cavage HTTP signatures, content negotiation and delivery planning.

pub mod config;
pub mod iri;
pub mod text;
pub mod vocab;
pub mod follow;
pub mod undo;
pub mod note;
pub mod crypto;
pub mod http_signatures;
pub mod signature_header;
pub mod negotiation;
pub mod status;
pub mod request;
pub mod inbox;
pub mod network;
pub mod delivery;
pub mod outbound;
pub mod actor_fetch;
pub mod store;
pub mod error;
pub mod resources;
pub mod capabilities;
pub mod signature_law;
