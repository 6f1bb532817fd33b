//! Code-generation core for a pallet's capability implementations.
//!
//! Given a definition model — the parsed, structurally validated description
//! of one pallet module — the transformation in [`expand`] appends a fixed set
//! of derive-style capability annotations to the designated primary struct and
//! decides the shape of three generated capability implementations: error
//! metadata, version reporting, and genesis initialization. The [`version`]
//! module gives the semantics of the emitted version-reporting and
//! genesis-initialization code against a model of the assumed key-value store.

pub mod expand;
pub mod model;
pub mod version;
