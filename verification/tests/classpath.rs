use typed_data::classpath::split_class_path;
use typed_data::classpath::split_modules_and_class;

#[test]
fn plain_name_is_one_segment() {
    assert_eq!(split_class_path("Foo"), vec!["Foo"]);
}

#[test]
fn nested_path_splits_on_each_separator() {
    assert_eq!(split_class_path("Foo::Bar::Baz"), vec!["Foo", "Bar", "Baz"]);
}

#[test]
fn empty_path_is_one_empty_segment() {
    assert_eq!(split_class_path(""), vec![""]);
}

#[test]
fn leading_and_trailing_separators_make_empty_segments() {
    assert_eq!(split_class_path("::Foo"), vec!["", "Foo"]);
    assert_eq!(split_class_path("Foo::"), vec!["Foo", ""]);
    assert_eq!(split_class_path("::"), vec!["", ""]);
}

#[test]
fn separators_match_leftmost_first() {
    assert_eq!(split_class_path("A:::B"), vec!["A", ":B"]);
    assert_eq!(split_class_path("A::::B"), vec!["A", "", "B"]);
    assert_eq!(split_class_path(":"), vec![":"]);
}

#[test]
fn split_agrees_with_std_split() {
    for path in ["Foo", "Foo::Bar", "A:::B", "::x::", "a:b::c:::d::::e"] {
        let expected: Vec<&str> = path.split("::").collect();
        assert_eq!(split_class_path(path), expected);
    }
}

#[test]
fn modules_and_class_split_off_the_last_segment() {
    let (modules, class) = split_modules_and_class("Foo::Bar::Baz");
    assert_eq!(modules, vec!["Foo", "Bar"]);
    assert_eq!(class, "Baz");
}

#[test]
fn single_segment_path_has_no_modules() {
    let (modules, class) = split_modules_and_class("Foo");
    assert!(modules.is_empty());
    assert_eq!(class, "Foo");
}
