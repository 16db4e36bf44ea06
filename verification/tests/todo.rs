use todo_schema::ToDo;

#[test]
fn test_id() {
    let todo = ToDo::new(
        uuid::Uuid::parse_str("97103fab-1e50-36b7-0c03-0938362b0809")
            .unwrap()
            .as_u128(),
        String::from("sample"),
    );

    assert_eq!(todo.id(), "97103fab1e5036b70c030938362b0809");
    assert_ne!(todo.id(), "97103fab-1e50-36b7-0c03-0938362b0809");
}

#[test]
fn test_text() {
    let todo = ToDo::new(
        uuid::Uuid::parse_str("97103fab-1e50-36b7-0c03-0938362b0809")
            .unwrap()
            .as_u128(),
        String::from("sample"),
    );

    assert_eq!(todo.text(), &String::from("sample"));
    assert_ne!(todo.text(), &String::from("not equal"));
}

#[test]
fn test_partial_eq() {
    let id: u128 = uuid::Uuid::parse_str("97103fab-1e50-36b7-0c03-0938362b0809")
        .unwrap()
        .as_u128();
    let other_id: u128 = uuid::Uuid::parse_str("aaaaaaaa-1e50-36b7-0c03-0938362b0809")
        .unwrap()
        .as_u128();

    assert_eq!(
        ToDo::new(id, String::from("one")),
        ToDo::new(id, String::from("other"))
    );

    assert_ne!(
        ToDo::new(id, String::from("one")),
        ToDo::new(other_id, String::from("one"))
    );
}

#[test]
fn id_renders_smallest_value() {
    let todo = ToDo::new(0, String::from("zero"));
    assert_eq!(todo.id(), "00000000000000000000000000000000");
}

#[test]
fn id_renders_largest_value() {
    let todo = ToDo::new(u128::MAX, String::from("max"));
    assert_eq!(todo.id(), "ffffffffffffffffffffffffffffffff");
}

#[test]
fn id_renders_every_digit() {
    let todo = ToDo::new(0x0123456789abcdef0123456789abcdef, String::new());
    assert_eq!(todo.id(), "0123456789abcdef0123456789abcdef");
}

#[test]
fn random_id_keeps_text() {
    let todo = ToDo::new_random_id(String::from("s"));
    assert_eq!(todo.text(), &String::from("s"));
}

#[test]
fn random_id_is_simple_hex_with_version_nibble() {
    let id = ToDo::new_random_id(String::from("s")).id();
    assert_eq!(id.len(), 32);
    assert!(id.chars().all(|c| c.is_ascii_hexdigit() && !c.is_uppercase()));
    assert_eq!(id.as_bytes()[12], b'4');
}

#[test]
fn random_ids_differ_for_equal_text() {
    let one = ToDo::new_random_id(String::from("s"));
    let two = ToDo::new_random_id(String::from("s"));
    assert_ne!(one.id(), two.id());
    assert_ne!(one, two);
}
