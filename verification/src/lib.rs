//! A bridge layer for native code on a managed-runtime host whose file access
//! goes through a permission-scoped document tree.
//!
//! The crate has two layers. The bridge context ([`bridge`]) owns the one-time
//! initialized state that lets any native thread attach to the host runtime
//! and resolve application classes. The document entity layer ([`entity`],
//! [`listing`]) represents a file-or-directory handle inside the granted tree
//! and the operations on it: open, list, create file, create directory,
//! remove.
//!
//! Every call into the host runtime is performed by the surrounding glue; the
//! functions here take the values such a call produced, make every decision,
//! and are verified for all values the host could hand back.

pub mod bridge;
pub mod entity;
pub mod error;
pub mod listing;
pub mod text;
