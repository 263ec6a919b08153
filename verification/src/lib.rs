//! Link-state reconciliation engine for a declarative symlink manager.
//!
//! A configuration names entries, each a `(source, target)` pair of declared
//! paths. The engine decides, from read-only filesystem observations, what
//! state each target is in relative to its source, whether a requested
//! operation is safe, and which mutations to perform — all before any
//! mutation happens. The caller performs the filesystem queries and
//! mutations and renders the structured outcomes.

pub mod entry;
pub mod inspect;
pub mod model;
pub mod order;
pub mod reconcile;
pub mod resolve;
pub mod selection;
pub mod state;
