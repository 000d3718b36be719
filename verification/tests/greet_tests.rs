use enhanced_cd_app::greet::greet;

#[test]
fn greet_interpolates_the_name() {
    assert_eq!(greet("Ada"), "Hello, Ada! You've been greeted from Rust!");
}

#[test]
fn greet_is_total_for_any_string() {
    assert_eq!(greet(""), "Hello, ! You've been greeted from Rust!");
    assert_eq!(
        greet("R<&>\"n\\e\u{301}"),
        "Hello, R<&>\"n\\e\u{301}! You've been greeted from Rust!"
    );
    assert_eq!(
        greet("name with spaces"),
        "Hello, name with spaces! You've been greeted from Rust!"
    );
}
