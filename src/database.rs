use vstd::prelude::*;

verus! {

/// A SQL backend: the identity that a type mapping is declared against.
///
/// Each backend has its own vocabulary of type descriptors; a descriptor
/// names the canonical type that the backend stores a value as.
pub trait Database {
    /// The backend's descriptor of a SQL type.
    type TypeInfo;
}

} // verus!
