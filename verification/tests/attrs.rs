use typed_data::attrs::apply_type_attr;
use typed_data::attrs::attr_error_message;
use typed_data::attrs::attr_takes_value;
use typed_data::attrs::classify_field_attr;
use typed_data::attrs::classify_variant_attr;
use typed_data::attrs::resolve;
use typed_data::attrs::AttrError;
use typed_data::attrs::FieldAttr;
use typed_data::attrs::TypeAttrs;
use typed_data::attrs::VariantAttr;

#[test]
fn fresh_config_is_all_off() {
    let cfg = TypeAttrs::new();
    assert_eq!(cfg.class, None);
    assert_eq!(cfg.name, None);
    assert!(!cfg.mark);
    assert!(!cfg.size);
    assert!(!cfg.compact);
    assert!(!cfg.free_immediately);
    assert!(!cfg.wb_protected);
    assert!(!cfg.frozen_shareable);
    assert!(!cfg.unsafe_generics);
    assert!(!cfg.accessors);
    assert!(!cfg.bindings);
}

#[test]
fn class_and_name_take_values() {
    let mut cfg = TypeAttrs::new();
    assert_eq!(apply_type_attr(&mut cfg, "class", Some("Foo::Bar".to_string())), Ok(()));
    assert_eq!(apply_type_attr(&mut cfg, "name", Some("Bar".to_string())), Ok(()));
    assert_eq!(cfg.class.as_deref(), Some("Foo::Bar"));
    assert_eq!(cfg.name.as_deref(), Some("Bar"));
}

#[test]
fn class_without_value_is_rejected() {
    let mut cfg = TypeAttrs::new();
    assert_eq!(apply_type_attr(&mut cfg, "class", None), Err(AttrError::MissingValue));
    assert_eq!(cfg.class, None);
}

#[test]
fn every_flag_key_sets_its_flag() {
    let mut cfg = TypeAttrs::new();
    for key in [
        "mark",
        "size",
        "compact",
        "free_immediately",
        "wb_protected",
        "frozen_shareable",
        "unsafe_generics",
        "accessors",
        "bindings",
    ] {
        assert_eq!(apply_type_attr(&mut cfg, key, None), Ok(()));
    }
    assert!(cfg.mark);
    assert!(cfg.size);
    assert!(cfg.compact);
    assert!(cfg.free_immediately);
    assert!(cfg.wb_protected);
    assert!(cfg.frozen_shareable);
    assert!(cfg.unsafe_generics);
    assert!(cfg.accessors);
    assert!(cfg.bindings);
}

#[test]
fn misspelled_free_immediately_gets_its_own_error() {
    let mut cfg = TypeAttrs::new();
    let r = apply_type_attr(&mut cfg, "free_immediatly", None);
    assert_eq!(r, Err(AttrError::MisspelledFreeImmediately));
    assert!(!cfg.free_immediately);
    assert_eq!(
        attr_error_message(&AttrError::MisspelledFreeImmediately),
        "unsupported attribute (use free_immediately)"
    );
}

#[test]
fn unknown_key_is_rejected_and_changes_nothing() {
    let mut cfg = TypeAttrs::new();
    assert_eq!(apply_type_attr(&mut cfg, "marks", None), Err(AttrError::Unsupported));
    assert_eq!(apply_type_attr(&mut cfg, "", None), Err(AttrError::Unsupported));
    assert!(!cfg.mark);
    assert_eq!(attr_error_message(&AttrError::Unsupported), "unsupported attribute");
}

#[test]
fn only_class_and_name_take_values() {
    assert!(attr_takes_value("class"));
    assert!(attr_takes_value("name"));
    assert!(!attr_takes_value("mark"));
    assert!(!attr_takes_value("bindings"));
    assert!(!attr_takes_value("classname"));
}

#[test]
fn resolve_without_class_is_rejected() {
    let cfg = TypeAttrs::new();
    let r = resolve(cfg);
    assert!(r.is_err());
    let msg = attr_error_message(&r.unwrap_err());
    assert_eq!(msg, "missing attribute: `class = ...`");
}

#[test]
fn resolve_defaults_name_to_class() {
    let mut cfg = TypeAttrs::new();
    apply_type_attr(&mut cfg, "class", Some("Foo::Bar".to_string())).unwrap();
    let r = resolve(cfg).unwrap();
    assert_eq!(r.class, "Foo::Bar");
    assert_eq!(r.name, "Foo::Bar");
}

#[test]
fn resolve_keeps_an_explicit_name() {
    let mut cfg = TypeAttrs::new();
    apply_type_attr(&mut cfg, "class", Some("Foo::Bar".to_string())).unwrap();
    apply_type_attr(&mut cfg, "name", Some("Bar".to_string())).unwrap();
    apply_type_attr(&mut cfg, "mark", None).unwrap();
    let r = resolve(cfg).unwrap();
    assert_eq!(r.class, "Foo::Bar");
    assert_eq!(r.name, "Bar");
    assert!(r.mark);
    assert!(!r.size);
}

#[test]
fn variant_attrs_accept_only_class() {
    assert_eq!(classify_variant_attr("class"), VariantAttr::Class);
    assert_eq!(classify_variant_attr("name"), VariantAttr::Unsupported);
    assert_eq!(classify_variant_attr("mark"), VariantAttr::Unsupported);
}

#[test]
fn field_attrs_accept_only_opaque_attr_reader() {
    assert_eq!(classify_field_attr("opaque_attr_reader"), FieldAttr::OpaqueAttrReader);
    assert_eq!(classify_field_attr("class"), FieldAttr::Unsupported);
}

#[test]
fn missing_attribute_message() {
    assert_eq!(attr_error_message(&AttrError::MissingAttribute), "missing #[magnus] attribute");
    assert_eq!(attr_error_message(&AttrError::MissingValue), "missing value for attribute");
}
