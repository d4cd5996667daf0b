use app_shell::greeting::greet;

#[test]
fn greet_embeds_the_name() {
    assert_eq!(greet("Alice"), "Hello, Alice! You've been greeted from Rust!");
}

#[test]
fn greet_empty_name() {
    assert_eq!(greet(""), "Hello, ! You've been greeted from Rust!");
}

#[test]
fn greet_repeated_calls_agree() {
    let first = greet("world");
    let second = greet("world");
    assert_eq!(first, second);
}

#[test]
fn greet_keeps_special_characters_verbatim() {
    assert_eq!(
        greet("<Tom & \"Jerry\">"),
        "Hello, <Tom & \"Jerry\">! You've been greeted from Rust!"
    );
}
