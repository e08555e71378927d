use momentum::command::{commands, greet, Command};

#[test]
fn greet_interpolates_name() {
    assert_eq!(greet("Ann"), "Hello, Ann! You've been greeted from Rust!");
}

#[test]
fn greet_empty_name() {
    assert_eq!(greet(""), "Hello, ! You've been greeted from Rust!");
}

#[test]
fn greet_keeps_whitespace_and_control_characters() {
    assert_eq!(greet("  a\tb\n"), "Hello,   a\tb\n! You've been greeted from Rust!");
    assert_eq!(greet("\u{0}\u{7}"), "Hello, \u{0}\u{7}! You've been greeted from Rust!");
}

#[test]
fn greet_does_not_escape_markup_or_braces() {
    assert_eq!(greet("<b>{x}</b> \"q\""), "Hello, <b>{x}</b> \"q\"! You've been greeted from Rust!");
}

#[test]
fn greet_non_ascii_name_is_kept_byte_for_byte() {
    let r = greet("Zoë 名前");
    assert_eq!(r.as_bytes(), "Hello, Zoë 名前! You've been greeted from Rust!".as_bytes());
}

#[test]
fn one_command_named_greet() {
    let c = commands();
    assert_eq!(c, vec![Command::Greet]);
    assert_eq!(c[0].name(), "greet");
}
