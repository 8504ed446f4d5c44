//! Causal integrity checking over streams of security and operations events.
//!
//! Four engines (identity, control plane, thermal, automation) and a session engine read
//! events one at a time, remember per entity what each event establishes, and report a
//! variance whenever an event arrives without the events that have to precede it.
//! Around the engines stand the explanation of each check, the snapshot of what the engines
//! remember, the demonstration run and its rendering as a page.

pub mod automation;
pub mod checks;
pub mod control_plane;
pub mod engine;
pub mod events;
pub mod freshness;
pub mod graph;
pub mod js;
pub mod laws;
pub mod narratives;
pub mod ordering;
pub mod page;
pub mod scenario;
pub mod snapshot;
pub mod state;
pub mod store;
pub mod text;
pub mod thermal;
pub mod variance;
pub mod ztna;
