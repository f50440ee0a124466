use vanity_search::matcher::InvalidPatternError;
use vanity_search::matcher::Matcher;

#[test]
fn malformed_pattern_does_not_compile() {
    assert_eq!(Matcher::compile("[").err(), Some(InvalidPatternError {}));
    assert!(Matcher::compile("(").is_err());
    assert!(Matcher::compile("a{2,1}").is_err());
}

#[test]
fn anchored_prefix_matches_only_at_the_start() {
    let matcher = Matcher::compile("^0x0000").unwrap();
    assert!(matcher.test("0x0000a3f1"));
    assert!(!matcher.test("0x1000a3f1"));
    assert!(!matcher.test("a0x0000"));
    assert_eq!(matcher.pattern(), "^0x0000");
}

#[test]
fn plain_text_matches_anywhere() {
    let matcher = Matcher::compile("0000").unwrap();
    assert!(matcher.test("0x12000034"));
    assert!(matcher.test("0x0000"));
    assert!(!matcher.test("0x000100"));
}

#[test]
fn empty_pattern_matches_everything() {
    let matcher = Matcher::compile("").unwrap();
    assert!(matcher.test(""));
    assert!(matcher.test("0xabc"));
}

#[test]
fn test_does_not_hand_back_a_constant() {
    let matcher = Matcher::compile("beef$").unwrap();
    assert!(matcher.test("0xdeadbeef"));
    assert!(!matcher.test("0xbeefdead"));
}
