use ballot_bot::text::same_text;

#[test]
fn same_text_compares_the_characters() {
    assert!(same_text("", ""));
    assert!(same_text("base", "base"));
    assert!(!same_text("base", "Base"));
    assert!(!same_text("base", "bas"));
    assert!(!same_text("base", "based"));
    assert!(same_text("\u{23FA}\u{FE0F}", "\u{23FA}\u{FE0F}"));
    assert!(!same_text("\u{23FA}\u{FE0F}", "\u{23FA}"));
}

#[test]
fn same_text_goes_both_ways() {
    for (left, right) in [("", "x"), ("dice", "dice"), ("dice", "base"), ("a", "ab")] {
        assert_eq!(same_text(left, right), same_text(right, left));
        assert_eq!(same_text(left, right), left == right);
    }
}
