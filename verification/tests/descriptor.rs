use proxy_session::descriptor::InterfaceDescriptor;

fn parts(label: &str) -> (String, Option<String>) {
    let d = InterfaceDescriptor::parse(label);
    (d.name, d.alias)
}

#[test]
fn descriptor_name_only() {
    assert_eq!(parts("eth0"), ("eth0".to_string(), None));
}

#[test]
fn descriptor_name_and_alias() {
    assert_eq!(parts("eth0 (Realtek PCIe)"), ("eth0".to_string(), Some("Realtek PCIe".to_string())));
}

#[test]
fn descriptor_nested_parentheses_are_kept() {
    assert_eq!(parts("eth0 (Foo (Bar))"), ("eth0".to_string(), Some("Foo (Bar)".to_string())));
    assert_eq!(parts("eth0 ((a)(b))"), ("eth0".to_string(), Some("(a)(b)".to_string())));
    assert_eq!(parts("eth0 (a (b (c)) d)"), ("eth0".to_string(), Some("a (b (c)) d".to_string())));
}

#[test]
fn descriptor_empty_group_is_no_alias() {
    assert_eq!(parts("eth0 ()"), ("eth0".to_string(), None));
}

#[test]
fn descriptor_empty_label() {
    assert_eq!(parts(""), (String::new(), None));
}

#[test]
fn descriptor_space_without_group() {
    assert_eq!(parts("eth0 "), ("eth0".to_string(), None));
    assert_eq!(parts("eth0 Realtek"), ("eth0".to_string(), None));
    assert_eq!(parts("eth0  (Realtek)"), ("eth0".to_string(), None));
    assert_eq!(parts("eth0 )("), ("eth0".to_string(), None));
    assert_eq!(parts("eth0 x(Realtek)"), ("eth0".to_string(), None));
}

#[test]
fn descriptor_leading_space_gives_empty_name() {
    assert_eq!(parts(" (alias)"), (String::new(), Some("alias".to_string())));
}

#[test]
fn descriptor_group_without_end_runs_to_the_end() {
    assert_eq!(parts("eth0 (Realtek"), ("eth0".to_string(), Some("Realtek".to_string())));
    assert_eq!(parts("eth0 (Foo (Bar)"), ("eth0".to_string(), Some("Foo (Bar)".to_string())));
    assert_eq!(parts("eth0 ("), ("eth0".to_string(), None));
}

#[test]
fn descriptor_stops_at_the_end_of_the_group() {
    assert_eq!(parts("eth0 (a) (b)"), ("eth0".to_string(), Some("a".to_string())));
    assert_eq!(parts("eth0 (a)(b)"), ("eth0".to_string(), Some("a".to_string())));
    assert_eq!(parts("eth0 (a)b"), ("eth0".to_string(), Some("a".to_string())));
    assert_eq!(parts("eth0 (a))"), ("eth0".to_string(), Some("a".to_string())));
}

#[test]
fn descriptor_no_space_keeps_parentheses_in_the_name() {
    assert_eq!(parts("eth0(Realtek)"), ("eth0(Realtek)".to_string(), None));
}

#[test]
fn descriptor_takes_any_characters() {
    assert_eq!(
        parts("\u{4ee5}\u{592a}\u{7f51} (\u{7f51}\u{5361} 1)"),
        ("\u{4ee5}\u{592a}\u{7f51}".to_string(), Some("\u{7f51}\u{5361} 1".to_string()))
    );
}
