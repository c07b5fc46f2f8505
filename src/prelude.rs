//! The items that code implementing an owning finalizer needs.
pub use crate::{DestructuredFieldsOf, DropWithOwnedFields};
