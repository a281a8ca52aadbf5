//! An in-memory document tree: typed nodes kept in a sandbox, appended to one
//! another, enumerated through live or frozen lists and searched by tag name.

pub mod error;
pub mod selector;
pub mod element;
pub mod contents;
pub mod node;
pub mod sandbox;
pub mod node_list;
pub mod query_selector;
pub mod node_behavior;
pub mod parent_node;
pub mod sandbox_member;
pub mod template;
pub mod laws;
pub mod wrapped;
