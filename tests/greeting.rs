use phoenix::greeting::{greet, greet1};

#[test]
fn greet_formats_name() {
    assert_eq!(greet("World"), "Hello, World!");
}

#[test]
fn greet_keeps_name_verbatim() {
    assert_eq!(greet("  <b>&\"x\" \\n  "), "Hello,   <b>&\"x\" \\n  !");
    assert_eq!(greet("Zoë 🌍"), "Hello, Zoë 🌍!");
}

#[test]
fn greet_empty_name() {
    assert_eq!(greet(""), "Hello, !");
}

#[test]
fn greet_long_name_not_truncated() {
    let name = "n".repeat(10_000);
    let r = greet(&name);
    assert_eq!(r.len(), "Hello, ".len() + 10_000 + 1);
    assert_eq!(r, format!("Hello, {}!", name));
}

#[test]
fn greet1_formats_name() {
    assert_eq!(greet1("World"), "Hello1, World!");
    assert_eq!(greet1(""), "Hello1, !");
    assert_eq!(greet1("a, b!"), "Hello1, a, b!!");
}
