use typed_data::accessors::accessor_kind;
use typed_data::accessors::AccessorKind;
use typed_data::attrs::apply_type_attr;
use typed_data::attrs::resolve;
use typed_data::attrs::TypeAttrs;
use typed_data::builder::builder_flags;
use typed_data::builder::DataTypeFlag;
use typed_data::generics::check_generics;
use typed_data::generics::generics_error_message;
use typed_data::generics::GenericsError;

fn resolved_with(keys: &[&str]) -> typed_data::attrs::ResolvedAttrs {
    let mut cfg = TypeAttrs::new();
    apply_type_attr(&mut cfg, "class", Some("Foo".to_string())).unwrap();
    for key in keys {
        apply_type_attr(&mut cfg, key, None).unwrap();
    }
    resolve(cfg).unwrap()
}

#[test]
fn no_generics_passes() {
    assert_eq!(check_generics(0, 0, 0, false), Ok(()));
    assert_eq!(check_generics(0, 0, 0, true), Ok(()));
}

#[test]
fn unsafe_generics_overrides_the_guard() {
    assert_eq!(check_generics(2, 1, 1, true), Ok(()));
}

#[test]
fn generic_kinds_are_reported_in_priority_order() {
    assert_eq!(check_generics(1, 1, 1, false), Err(GenericsError::TypeParams));
    assert_eq!(check_generics(0, 2, 1, false), Err(GenericsError::Lifetimes));
    assert_eq!(check_generics(0, 0, 3, false), Err(GenericsError::ConstParams));
}

#[test]
fn generics_messages_name_the_kind() {
    assert_eq!(
        generics_error_message(&GenericsError::TypeParams),
        "deriving TypedData is not guaranteed to be correct for types containing generic types, consider removing them, or use `#[magnus(unsafe_generics)]` to override this error."
    );
    assert_eq!(
        generics_error_message(&GenericsError::Lifetimes),
        "deriving TypedData is not guaranteed to be correct for types with lifetimes, consider removing them, or use `#[magnus(unsafe_generics)]` to override this error."
    );
    assert_eq!(
        generics_error_message(&GenericsError::ConstParams),
        "deriving TypedData is not guaranteed to be correct for types with const generics, consider removing them, or use `#[magnus(unsafe_generics)]` to override this error."
    );
}

#[test]
fn builder_flags_empty_without_flags() {
    let r = resolved_with(&[]);
    assert_eq!(builder_flags(&r), Vec::<DataTypeFlag>::new());
}

#[test]
fn builder_flags_come_in_fixed_order() {
    let r = resolved_with(&[
        "frozen_shareable",
        "wb_protected",
        "free_immediately",
        "compact",
        "size",
        "mark",
    ]);
    assert_eq!(
        builder_flags(&r),
        vec![
            DataTypeFlag::Mark,
            DataTypeFlag::Size,
            DataTypeFlag::Compact,
            DataTypeFlag::FreeImmediately,
            DataTypeFlag::WbProtected,
            DataTypeFlag::FrozenShareable,
        ]
    );
}

#[test]
fn builder_flags_keep_only_enabled_methods() {
    let r = resolved_with(&["wb_protected", "mark"]);
    assert_eq!(builder_flags(&r), vec![DataTypeFlag::Mark, DataTypeFlag::WbProtected]);
}

#[test]
fn opaque_reader_wins_over_everything() {
    assert_eq!(accessor_kind("Vec < String >", true, true), AccessorKind::OpaqueReader);
    assert_eq!(accessor_kind("Uuid", true, false), AccessorKind::OpaqueReader);
}

#[test]
fn without_accessors_flag_fields_get_no_reader() {
    assert_eq!(accessor_kind("String", false, false), AccessorKind::NoAccessor);
    assert_eq!(accessor_kind("Uuid", false, false), AccessorKind::NoAccessor);
}

#[test]
fn accessor_is_chosen_by_the_printed_type() {
    assert_eq!(accessor_kind("Vec < String >", false, true), AccessorKind::VecToArray);
    assert_eq!(accessor_kind("Vec", false, true), AccessorKind::VecToArray);
    assert_eq!(accessor_kind("Uuid", false, true), AccessorKind::UuidToString);
    assert_eq!(accessor_kind("String", false, true), AccessorKind::CloneValue);
    assert_eq!(accessor_kind("uuid :: Uuid", false, true), AccessorKind::CloneValue);
    assert_eq!(accessor_kind("", false, true), AccessorKind::CloneValue);
}
