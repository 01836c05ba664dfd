//! Conversions between Rust and SQL types.
//!
//! A value type declares that a backend can represent it by implementing
//! [`Type`] for that backend. References and optional values inherit the
//! declaration of the type they wrap, with the same descriptor.
//!
//! External types that backends map are re-exported here, so that downstream
//! users name the same version of the external crate as this one.

use vstd::prelude::*;

pub use bigdecimal::BigDecimal;
pub use uuid::Uuid;

pub mod chrono;
pub mod ipnetwork;
pub mod time;

use crate::database::Database;

verus! {

/// Indicates that a SQL type is supported for a database.
pub trait Type<DB: Database> {
    /// The canonical descriptor that `DB` associates with this type.
    spec fn descriptor() -> DB::TypeInfo;

    /// Returns the canonical type information on the database for this type.
    ///
    /// The result depends on the type and the backend alone: every call
    /// returns the same descriptor.
    fn type_info() -> (r: DB::TypeInfo)
        ensures
            r == Self::descriptor(),
    ;
}

// for references, the underlying SQL type is identical
impl<T: ?Sized + Type<DB>, DB: Database> Type<DB> for &T {
    open spec fn descriptor() -> DB::TypeInfo {
        T::descriptor()
    }

    #[inline]
    fn type_info() -> (r: DB::TypeInfo)
        ensures
            r == T::descriptor(),
    {
        T::type_info()
    }
}

// for optionals, the underlying SQL type is identical
impl<T: Type<DB>, DB: Database> Type<DB> for Option<T> {
    open spec fn descriptor() -> DB::TypeInfo {
        T::descriptor()
    }

    #[inline]
    fn type_info() -> (r: DB::TypeInfo)
        ensures
            r == T::descriptor(),
    {
        T::type_info()
    }
}

/// A reference to `T` has the same descriptor as `T`, on every backend
/// where `T` has one.
pub proof fn reference_keeps_descriptor<'a, T: ?Sized + Type<DB>, DB: Database>()
    ensures
        <&'a T as Type<DB>>::descriptor() == T::descriptor(),
{
}

/// An optional `T` has the same descriptor as `T`, on every backend where
/// `T` has one, whether a value is present or not.
pub proof fn optional_keeps_descriptor<T: Type<DB>, DB: Database>()
    ensures
        <Option<T> as Type<DB>>::descriptor() == T::descriptor(),
{
}

/// A reference to an optional `T` and an optional reference to `T` both
/// have the same descriptor as `T`.
pub proof fn nested_wrappers_keep_descriptor<'a, T: Type<DB>, DB: Database>()
    ensures
        <&'a Option<T> as Type<DB>>::descriptor() == T::descriptor(),
        <Option<&'a T> as Type<DB>>::descriptor() == T::descriptor(),
{
}

} // verus!
