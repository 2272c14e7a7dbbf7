use bake::text::same_text;

#[test]
fn same_characters_are_the_same_text() {
    assert!(same_text("", ""));
    assert!(same_text("c", "c"));
    assert!(same_text("--release", "--release"));
    assert!(same_text("señal", "señal"));
}

#[test]
fn different_characters_are_different_text() {
    assert!(!same_text("c", "C"));
    assert!(!same_text("cc", "c"));
    assert!(!same_text("c", "cc"));
    assert!(!same_text("", "c"));
    assert!(!same_text("abc", "abd"));
    assert!(!same_text("senal", "señal"));
}
