//! A minimal task-list library: an in-memory task table, the combined
//! delete-then-insert update protocol that edits it, and the projection
//! that turns stored tasks into render-ready view data.

pub mod adapter;
pub mod model;
pub mod protocol;
pub mod store;
