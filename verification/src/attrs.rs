//! The attribute vocabulary of the derive and what each key changes.
//!
//! A type opts in with a `magnus` attribute whose nested entries either carry
//! a string value (`class`, `name`) or switch a flag on. Enum variants and
//! named fields have their own, much smaller vocabularies. The functions here
//! decide, for every key the parser hands over, what happens to the
//! configuration, and resolve the finished configuration into the data the
//! code generator needs.

use vstd::prelude::*;
use crate::strutil::str_eq;

verus! {

/// Everything a `magnus` type attribute may set, as it accumulates entry by
/// entry. `class` and `name` carry values; the rest are flags that default to
/// off.
pub struct TypeAttrs {
    pub class: Option<String>,
    pub name: Option<String>,
    pub mark: bool,
    pub size: bool,
    pub compact: bool,
    pub free_immediately: bool,
    pub wb_protected: bool,
    pub frozen_shareable: bool,
    pub unsafe_generics: bool,
    pub accessors: bool,
    pub bindings: bool,
}

/// The mathematical image of a [`TypeAttrs`]: strings become character
/// sequences.
pub struct TypeAttrsView {
    pub class: Option<Seq<char>>,
    pub name: Option<Seq<char>>,
    pub mark: bool,
    pub size: bool,
    pub compact: bool,
    pub free_immediately: bool,
    pub wb_protected: bool,
    pub frozen_shareable: bool,
    pub unsafe_generics: bool,
    pub accessors: bool,
    pub bindings: bool,
}

impl View for TypeAttrs {
    type V = TypeAttrsView;

    open spec fn view(&self) -> TypeAttrsView {
        TypeAttrsView {
            class: self.class.deep_view(),
            name: self.name.deep_view(),
            mark: self.mark,
            size: self.size,
            compact: self.compact,
            free_immediately: self.free_immediately,
            wb_protected: self.wb_protected,
            frozen_shareable: self.frozen_shareable,
            unsafe_generics: self.unsafe_generics,
            accessors: self.accessors,
            bindings: self.bindings,
        }
    }
}

/// The configuration before any attribute entry has been applied.
pub open spec fn empty_attrs_view() -> TypeAttrsView {
    TypeAttrsView {
        class: None,
        name: None,
        mark: false,
        size: false,
        compact: false,
        free_immediately: false,
        wb_protected: false,
        frozen_shareable: false,
        unsafe_generics: false,
        accessors: false,
        bindings: false,
    }
}

impl TypeAttrs {
    /// A configuration with no class, no name, and every flag off.
    pub fn new() -> (r: TypeAttrs)
        ensures
            r@ == empty_attrs_view(),
    {
        TypeAttrs {
            class: None,
            name: None,
            mark: false,
            size: false,
            compact: false,
            free_immediately: false,
            wb_protected: false,
            frozen_shareable: false,
            unsafe_generics: false,
            accessors: false,
            bindings: false,
        }
    }
}

/// Why an attribute entry, or the finished configuration, is rejected.
#[derive(Clone, Copy, PartialEq, Eq, Debug)]
pub enum AttrError {
    /// The key is not part of the vocabulary.
    Unsupported,
    /// The key is the common misspelling of `free_immediately`.
    MisspelledFreeImmediately,
    /// The key needs a string value and none was supplied.
    MissingValue,
    /// The finished configuration never named a class.
    MissingClass,
    /// The type carries no `magnus` attribute at all.
    MissingAttribute,
}

/// What one type-attribute entry does: which keys are accepted, which of them
/// take a value, and what each sets in the configuration.
pub open spec fn apply_type_attr_spec(
    cfg: TypeAttrsView,
    key: Seq<char>,
    value: Option<Seq<char>>,
) -> (Result<(), AttrError>, TypeAttrsView) {
    if key == "class"@ {
        match value {
            Some(v) => (Ok(()), TypeAttrsView { class: Some(v), ..cfg }),
            None => (Err(AttrError::MissingValue), cfg),
        }
    } else if key == "name"@ {
        match value {
            Some(v) => (Ok(()), TypeAttrsView { name: Some(v), ..cfg }),
            None => (Err(AttrError::MissingValue), cfg),
        }
    } else if key == "mark"@ {
        (Ok(()), TypeAttrsView { mark: true, ..cfg })
    } else if key == "size"@ {
        (Ok(()), TypeAttrsView { size: true, ..cfg })
    } else if key == "compact"@ {
        (Ok(()), TypeAttrsView { compact: true, ..cfg })
    } else if key == "free_immediately"@ {
        (Ok(()), TypeAttrsView { free_immediately: true, ..cfg })
    } else if key == "wb_protected"@ {
        (Ok(()), TypeAttrsView { wb_protected: true, ..cfg })
    } else if key == "frozen_shareable"@ {
        (Ok(()), TypeAttrsView { frozen_shareable: true, ..cfg })
    } else if key == "unsafe_generics"@ {
        (Ok(()), TypeAttrsView { unsafe_generics: true, ..cfg })
    } else if key == "accessors"@ {
        (Ok(()), TypeAttrsView { accessors: true, ..cfg })
    } else if key == "bindings"@ {
        (Ok(()), TypeAttrsView { bindings: true, ..cfg })
    } else if key == "free_immediatly"@ {
        (Err(AttrError::MisspelledFreeImmediately), cfg)
    } else {
        (Err(AttrError::Unsupported), cfg)
    }
}

/// Applies one entry of a `magnus` type attribute to the configuration.
///
/// `value` is the string value the parser found after the key, if any; flag
/// keys leave it untouched. On an error the configuration is unchanged.
pub fn apply_type_attr(cfg: &mut TypeAttrs, key: &str, value: Option<String>) -> (r: Result<
    (),
    AttrError,
>)
    ensures
        ({
            let (sr, scfg) = apply_type_attr_spec(old(cfg)@, key@, value.deep_view());
            r == sr && final(cfg)@ == scfg
        }),
{
    if str_eq(key, "class") {
        match value {
            Some(v) => {
                cfg.class = Some(v);
                Ok(())
            },
            None => Err(AttrError::MissingValue),
        }
    } else if str_eq(key, "name") {
        match value {
            Some(v) => {
                cfg.name = Some(v);
                Ok(())
            },
            None => Err(AttrError::MissingValue),
        }
    } else if str_eq(key, "mark") {
        cfg.mark = true;
        Ok(())
    } else if str_eq(key, "size") {
        cfg.size = true;
        Ok(())
    } else if str_eq(key, "compact") {
        cfg.compact = true;
        Ok(())
    } else if str_eq(key, "free_immediately") {
        cfg.free_immediately = true;
        Ok(())
    } else if str_eq(key, "wb_protected") {
        cfg.wb_protected = true;
        Ok(())
    } else if str_eq(key, "frozen_shareable") {
        cfg.frozen_shareable = true;
        Ok(())
    } else if str_eq(key, "unsafe_generics") {
        cfg.unsafe_generics = true;
        Ok(())
    } else if str_eq(key, "accessors") {
        cfg.accessors = true;
        Ok(())
    } else if str_eq(key, "bindings") {
        cfg.bindings = true;
        Ok(())
    } else if str_eq(key, "free_immediatly") {
        Err(AttrError::MisspelledFreeImmediately)
    } else {
        Err(AttrError::Unsupported)
    }
}

/// True exactly for the keys that expect `= "..."` after them: the parser
/// must read a value for `class` and `name` before applying the entry, and
/// for no other key.
pub fn attr_takes_value(key: &str) -> (r: bool)
    ensures
        r == (key@ == "class"@ || key@ == "name"@),
{
    str_eq(key, "class") || str_eq(key, "name")
}

/// The finished configuration once every entry is in: the class is mandatory
/// and the Ruby-facing name falls back to the class path.
#[derive(Debug)]
pub struct ResolvedAttrs {
    pub class: String,
    pub name: String,
    pub mark: bool,
    pub size: bool,
    pub compact: bool,
    pub free_immediately: bool,
    pub wb_protected: bool,
    pub frozen_shareable: bool,
    pub accessors: bool,
    pub bindings: bool,
}

/// The mathematical image of a [`ResolvedAttrs`].
pub struct ResolvedAttrsView {
    pub class: Seq<char>,
    pub name: Seq<char>,
    pub mark: bool,
    pub size: bool,
    pub compact: bool,
    pub free_immediately: bool,
    pub wb_protected: bool,
    pub frozen_shareable: bool,
    pub accessors: bool,
    pub bindings: bool,
}

impl View for ResolvedAttrs {
    type V = ResolvedAttrsView;

    open spec fn view(&self) -> ResolvedAttrsView {
        ResolvedAttrsView {
            class: self.class@,
            name: self.name@,
            mark: self.mark,
            size: self.size,
            compact: self.compact,
            free_immediately: self.free_immediately,
            wb_protected: self.wb_protected,
            frozen_shareable: self.frozen_shareable,
            accessors: self.accessors,
            bindings: self.bindings,
        }
    }
}

/// How a configuration resolves: without a class it is rejected, and a
/// missing name falls back to the class path.
pub open spec fn resolve_spec(cfg: TypeAttrsView) -> Result<ResolvedAttrsView, AttrError> {
    match cfg.class {
        None => Err(AttrError::MissingClass),
        Some(c) => Ok(
            ResolvedAttrsView {
                class: c,
                name: match cfg.name {
                    Some(n) => n,
                    None => c,
                },
                mark: cfg.mark,
                size: cfg.size,
                compact: cfg.compact,
                free_immediately: cfg.free_immediately,
                wb_protected: cfg.wb_protected,
                frozen_shareable: cfg.frozen_shareable,
                accessors: cfg.accessors,
                bindings: cfg.bindings,
            },
        ),
    }
}

/// Resolves the accumulated configuration, exactly as [`resolve_spec`] says.
pub fn resolve(cfg: TypeAttrs) -> (r: Result<ResolvedAttrs, AttrError>)
    ensures
        match r {
            Ok(res) => resolve_spec(cfg@) == Ok::<ResolvedAttrsView, AttrError>(res@),
            Err(e) => resolve_spec(cfg@) == Err::<ResolvedAttrsView, AttrError>(e),
        },
{
    match cfg.class {
        None => Err(AttrError::MissingClass),
        Some(c) => {
            let name = match cfg.name {
                Some(n) => n,
                None => c.clone(),
            };
            Ok(
                ResolvedAttrs {
                    class: c,
                    name,
                    mark: cfg.mark,
                    size: cfg.size,
                    compact: cfg.compact,
                    free_immediately: cfg.free_immediately,
                    wb_protected: cfg.wb_protected,
                    frozen_shareable: cfg.frozen_shareable,
                    accessors: cfg.accessors,
                    bindings: cfg.bindings,
                },
            )
        },
    }
}

/// The one key an enum variant's `magnus` attribute accepts.
#[derive(Clone, Copy, PartialEq, Eq, Debug)]
pub enum VariantAttr {
    /// `class = "..."`: the variant maps to its own Ruby class.
    Class,
    /// Anything else is rejected.
    Unsupported,
}

/// Classifies one key of a variant's `magnus` attribute: only `class` is
/// accepted.
pub fn classify_variant_attr(key: &str) -> (r: VariantAttr)
    ensures
        r == (if key@ == "class"@ {
            VariantAttr::Class
        } else {
            VariantAttr::Unsupported
        }),
{
    if str_eq(key, "class") {
        VariantAttr::Class
    } else {
        VariantAttr::Unsupported
    }
}

/// The one key a field's `magnus` attribute accepts.
#[derive(Clone, Copy, PartialEq, Eq, Debug)]
pub enum FieldAttr {
    /// `opaque_attr_reader`: the reader unwraps the opaque Ruby value.
    OpaqueAttrReader,
    /// Anything else is rejected.
    Unsupported,
}

/// Classifies one key of a field's `magnus` attribute: only
/// `opaque_attr_reader` is accepted.
pub fn classify_field_attr(key: &str) -> (r: FieldAttr)
    ensures
        r == (if key@ == "opaque_attr_reader"@ {
            FieldAttr::OpaqueAttrReader
        } else {
            FieldAttr::Unsupported
        }),
{
    if str_eq(key, "opaque_attr_reader") {
        FieldAttr::OpaqueAttrReader
    } else {
        FieldAttr::Unsupported
    }
}

/// The diagnostic each rejection carries.
pub open spec fn attr_error_message_spec(e: AttrError) -> Seq<char> {
    match e {
        AttrError::Unsupported => "unsupported attribute"@,
        AttrError::MisspelledFreeImmediately => "unsupported attribute (use free_immediately)"@,
        AttrError::MissingValue => "missing value for attribute"@,
        AttrError::MissingClass => "missing attribute: `class = ...`"@,
        AttrError::MissingAttribute => "missing #[magnus] attribute"@,
    }
}

/// The diagnostic text for an attribute error.
pub fn attr_error_message(e: &AttrError) -> (r: &'static str)
    ensures
        r@ == attr_error_message_spec(*e),
{
    match e {
        AttrError::Unsupported => "unsupported attribute",
        AttrError::MisspelledFreeImmediately => "unsupported attribute (use free_immediately)",
        AttrError::MissingValue => "missing value for attribute",
        AttrError::MissingClass => "missing attribute: `class = ...`",
        AttrError::MissingAttribute => "missing #[magnus] attribute",
    }
}

} // verus!
