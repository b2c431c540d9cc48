//! The guard on generic types.
//!
//! Attaching interpreter type metadata to a generic type is unsound in
//! general — one static metadata record would serve every instantiation — so
//! the derive rejects any type with generic parameters unless the
//! `unsafe_generics` flag overrides it. The diagnostic names the first kind
//! of parameter present, preferring type parameters over lifetimes over const
//! parameters.

use vstd::prelude::*;

verus! {

/// Which kind of generic parameter the rejected type carries.
#[derive(Clone, Copy, PartialEq, Eq, Debug)]
pub enum GenericsError {
    TypeParams,
    Lifetimes,
    ConstParams,
}

/// Whether a type with the given parameter counts passes the guard, and which
/// diagnostic it gets when it does not.
pub open spec fn check_generics_spec(
    type_params: usize,
    lifetimes: usize,
    const_params: usize,
    unsafe_generics: bool,
) -> Result<(), GenericsError> {
    if type_params == 0 && lifetimes == 0 && const_params == 0 {
        Ok(())
    } else if unsafe_generics {
        Ok(())
    } else if type_params > 0 {
        Err(GenericsError::TypeParams)
    } else if lifetimes > 0 {
        Err(GenericsError::Lifetimes)
    } else {
        Err(GenericsError::ConstParams)
    }
}

/// Applies the guard: a type with any generic parameter is rejected unless
/// `unsafe_generics` is set.
pub fn check_generics(
    type_params: usize,
    lifetimes: usize,
    const_params: usize,
    unsafe_generics: bool,
) -> (r: Result<(), GenericsError>)
    ensures
        r == check_generics_spec(type_params, lifetimes, const_params, unsafe_generics),
{
    if type_params == 0 && lifetimes == 0 && const_params == 0 {
        Ok(())
    } else if unsafe_generics {
        Ok(())
    } else if type_params > 0 {
        Err(GenericsError::TypeParams)
    } else if lifetimes > 0 {
        Err(GenericsError::Lifetimes)
    } else {
        Err(GenericsError::ConstParams)
    }
}

/// The diagnostic each rejected kind of parameter carries.
pub open spec fn generics_error_message_spec(e: GenericsError) -> Seq<char> {
    match e {
        GenericsError::TypeParams => "deriving TypedData is not guaranteed to be correct for types containing generic types, consider removing them, or use `#[magnus(unsafe_generics)]` to override this error."@,
        GenericsError::Lifetimes => "deriving TypedData is not guaranteed to be correct for types with lifetimes, consider removing them, or use `#[magnus(unsafe_generics)]` to override this error."@,
        GenericsError::ConstParams => "deriving TypedData is not guaranteed to be correct for types with const generics, consider removing them, or use `#[magnus(unsafe_generics)]` to override this error."@,
    }
}

/// The diagnostic text for a rejected generic type.
pub fn generics_error_message(e: &GenericsError) -> (r: &'static str)
    ensures
        r@ == generics_error_message_spec(*e),
{
    match e {
        GenericsError::TypeParams => "deriving TypedData is not guaranteed to be correct for types containing generic types, consider removing them, or use `#[magnus(unsafe_generics)]` to override this error.",
        GenericsError::Lifetimes => "deriving TypedData is not guaranteed to be correct for types with lifetimes, consider removing them, or use `#[magnus(unsafe_generics)]` to override this error.",
        GenericsError::ConstParams => "deriving TypedData is not guaranteed to be correct for types with const generics, consider removing them, or use `#[magnus(unsafe_generics)]` to override this error.",
    }
}

} // verus!
