//! Reactive state cells with runtime borrow tracking, path-scoped change
//! notification and batched delivery, plus the text helpers used by the
//! release tooling.
pub mod cell;
pub mod changelog_entry;
pub mod effect;
pub mod highlights;
pub mod laws;
pub mod notifier;
pub mod part_map;
pub mod path;
pub mod pr_body;
pub mod reader;
pub mod release;
pub mod state;
pub mod text;
pub mod watcher;
pub mod writer;
