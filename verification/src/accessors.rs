//! Which reader method a named struct field gets.
//!
//! A field marked `opaque_attr_reader` always gets a reader that unwraps its
//! opaque interpreter value. When the type-wide `accessors` flag is on, every
//! other field gets a reader chosen by the printed form of its type: a `Vec`
//! becomes a Ruby array, a `Uuid` is rendered as a string, and anything else
//! is returned by clone. Without the flag, unmarked fields get no reader.

use vstd::prelude::*;
use crate::strutil::is_prefix_of;
use crate::strutil::str_eq;
use crate::strutil::str_starts_with;

verus! {

/// The reader a field gets, if any.
#[derive(Clone, Copy, PartialEq, Eq, Debug)]
pub enum AccessorKind {
    /// Unwrap the opaque interpreter value held by the field.
    OpaqueReader,
    /// Convert the vector into an interpreter array.
    VecToArray,
    /// Render the value as a string.
    UuidToString,
    /// Return a clone of the value.
    CloneValue,
    /// Generate no reader.
    NoAccessor,
}

/// The choice of reader for a field whose type prints as `ty`.
pub open spec fn accessor_kind_spec(
    ty: Seq<char>,
    opaque_attr_reader: bool,
    accessors: bool,
) -> AccessorKind {
    if opaque_attr_reader {
        AccessorKind::OpaqueReader
    } else if !accessors {
        AccessorKind::NoAccessor
    } else if is_prefix_of("Vec"@, ty) {
        AccessorKind::VecToArray
    } else if ty == "Uuid"@ {
        AccessorKind::UuidToString
    } else {
        AccessorKind::CloneValue
    }
}

/// Chooses the reader for a field, exactly as [`accessor_kind_spec`] says.
/// `ty` is the printed form of the field's type.
pub fn accessor_kind(ty: &str, opaque_attr_reader: bool, accessors: bool) -> (r: AccessorKind)
    ensures
        r == accessor_kind_spec(ty@, opaque_attr_reader, accessors),
{
    if opaque_attr_reader {
        AccessorKind::OpaqueReader
    } else if !accessors {
        AccessorKind::NoAccessor
    } else if str_starts_with(ty, "Vec") {
        AccessorKind::VecToArray
    } else if str_eq(ty, "Uuid") {
        AccessorKind::UuidToString
    } else {
        AccessorKind::CloneValue
    }
}

} // verus!
