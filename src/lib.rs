//! Traceability integrity engine for a graph of engineering artifacts.
//!
//! - `history`: requirement snapshots, change detection and the audit
//!   entries recorded when a requirement's meaningful content changes.
//! - `suspect`: suspect markers propagated along derivation edges, with at
//!   most one open marker per edge.
//! - `validation`: structural and semantic findings about the whole graph.
//! - `model`, `kinds`, `storage`: the graph model, its kind taxonomy and the
//!   row in which a node's payload is stored.
//! - `export`, `diagrams`, `ai`: Markdown and XMI export, diagram rules and
//!   layout grouping, and the text handling around assistant replies.
//! - `bindings`: the calls into std and outside crates that the rest trusts.

pub mod bindings;
pub mod text;
pub mod kinds;
pub mod model;
pub mod history;
pub mod storage;
pub mod suspect;
pub mod export;
pub mod diagrams;
pub mod ai;
pub mod validation;
