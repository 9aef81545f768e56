use nlp_core::pattern::{CustomRegexTokenizer, RegexTokenizer, RegexType};

#[test]
fn split_by_pattern() {
    let t = CustomRegexTokenizer::new(" a , b,c ", RegexType::SplitRegexPattern(r"\s*,\s*"));
    assert_eq!(t.tokenize(), vec!["a", "b", "c"]);
}

#[test]
fn match_by_pattern() {
    let t = CustomRegexTokenizer::new("a1b22c333", RegexType::MatchRegexPattern(r"\d+"));
    assert_eq!(t.tokenize(), vec!["1", "22", "333"]);
}

#[test]
fn split_by_compiled_regex_drops_empty_pieces() {
    let re = regex::Regex::new(",").unwrap();
    let t = CustomRegexTokenizer::new("x,,y", RegexType::SplitRegex(re));
    assert_eq!(t.tokenize(), vec!["x", "y"]);
}

#[test]
fn match_by_compiled_regex() {
    let re = regex::Regex::new(r"[A-Z]\w*").unwrap();
    let t = CustomRegexTokenizer::new("Alice met Bob", RegexType::MatchRegex(re));
    assert_eq!(t.tokenize(), vec!["Alice", "Bob"]);
}

#[test]
fn multi_line_anchors_in_patterns() {
    let t = CustomRegexTokenizer::new("one two\nthree", RegexType::MatchRegexPattern(r"^\w+"));
    assert_eq!(t.tokenize(), vec!["one", "three"]);
}

#[test]
fn invalid_pattern_is_refused() {
    assert!(CustomRegexTokenizer::try_new("abc", RegexType::MatchRegexPattern("(")).is_none());
}

#[test]
fn valid_pattern_is_accepted() {
    let t = CustomRegexTokenizer::try_new(" a b ", RegexType::SplitRegexPattern(" ")).unwrap();
    assert_eq!(t.tokenize(), vec!["a", "b"]);
}
