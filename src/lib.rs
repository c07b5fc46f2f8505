//! Owning finalizers for plain records: a record is split into a companion
//! record that holds its fields and an owning wrapper whose end-of-life hook
//! hands the whole companion record, by value, to a user-written finalizer.
//!
//! - `slot`: the holder the wrapper keeps its record in, occupied until the
//!   end-of-life hook or the bypass operation empties it, and the hook itself;
//! - `expand`: what the annotation expands to, planned from the declaration;
//! - `args`, `visibility`, `derives`, `drop_sugar`: the argument grammar, the
//!   widening of visibilities, the reconciliation of derives, and the
//!   `impl Drop` form of the finalizer;
//! - `syntax`: the plain-value model of the syntax these read.
use vstd::prelude::*;

pub mod args;
pub mod derives;
pub mod drop_sugar;
pub mod expand;
pub mod prelude;
pub mod slot;
pub mod syntax;
pub mod visibility;

verus! {

/// Seal: only types that went through the expansion carry it.
#[allow(non_camel_case_types)]
pub trait drop_with_owned_fields_annotation {}

/// The association between an owning wrapper and its companion record.
pub trait DestructureFields: Sized + drop_with_owned_fields_annotation {
    /// The companion record: a plain record, with no finalizer of its own.
    type Fields;
}

/// The owning finalizer: receives every field of the dying value by value.
pub trait DropWithOwnedFields: DestructureFields {
    fn drop(owned_fields: Self::Fields);
}

/// The companion record of an owning wrapper.
pub type DestructuredFieldsOf<T> = <T as DestructureFields>::Fields;

/// Borrowing a value as a copy-on-write value that has not been copied.
pub trait BorrowedExt: Clone + Sized {
    fn borrowed(&self) -> (r: std::borrow::Cow<'_, Self>)
        ensures
            r == std::borrow::Cow::<'_, Self>::Borrowed(self),
    {
        std::borrow::Cow::Borrowed(self)
    }
}

impl<T: Clone> BorrowedExt for T {}

} // verus!
