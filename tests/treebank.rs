use nlp_core::treebank::{StringTokenizer, TreebankWordTokenizer};

fn tokens(text: &str) -> Vec<String> {
    let t = TreebankWordTokenizer::new(text);
    t.tokenize()
}

fn strs(v: &[&str]) -> Vec<String> {
    v.iter().map(|s| s.to_string()).collect()
}

#[test]
fn contraction_suffix_and_final_period() {
    assert_eq!(tokens("Don't stop."), strs(&["Do", "n't", "stop", "."]));
}

#[test]
fn cannot_splits() {
    assert_eq!(tokens("I cannot go."), strs(&["I", "can", "not", "go", "."]));
}

#[test]
fn quotes_are_normalised() {
    assert_eq!(
        tokens("She said \"hello\"."),
        strs(&["She", "said", "``", "hello", "''", "."])
    );
}

#[test]
fn round_brackets_are_renamed() {
    assert_eq!(tokens("(Hello)"), strs(&["-LRB-", "Hello", "-RRB-"]));
}

#[test]
fn whitespace_only_gives_nothing() {
    assert_eq!(tokens("   "), Vec::<String>::new());
}

#[test]
fn empty_gives_nothing() {
    assert_eq!(tokens(""), Vec::<String>::new());
}

#[test]
fn wanna_splits() {
    assert_eq!(tokens("wanna go"), strs(&["wan", "na", "go"]));
}

#[test]
fn every_bracket_kind_is_renamed() {
    assert_eq!(
        tokens("a (b) [c] {d}"),
        strs(&["a", "-LRB-", "b", "-RRB-", "-LSB-", "c", "-RSB-", "-LCB-", "d", "-RCB-"])
    );
}

#[test]
fn surrounding_whitespace_is_ignored() {
    assert_eq!(tokens("  \t I cannot go.\n "), tokens("I cannot go."));
}

#[test]
fn same_input_same_tokens() {
    let t = TreebankWordTokenizer::new("He's gonna win, isn't he?");
    assert_eq!(t.tokenize(), t.tokenize());
}

#[test]
fn tokens_resplit_to_themselves() {
    let toks = tokens("\"Well,\" she said -- 'tis $5.00 & more'n (that)...");
    assert!(toks.iter().all(|t| !t.is_empty() && !t.chars().any(char::is_whitespace)));
    let joined = toks.join(" ");
    let again: Vec<String> = joined.split_whitespace().map(|s| s.to_string()).collect();
    assert_eq!(again, toks);
}

#[test]
fn comma_before_digit_is_kept() {
    assert_eq!(tokens("1,000 a,b"), strs(&["1,000", "a", ",", "b"]));
}

#[test]
fn colon_at_end_is_padded() {
    assert_eq!(tokens("note:"), strs(&["note", ":"]));
}

#[test]
fn ellipsis_and_symbols() {
    assert_eq!(
        tokens("wait... 50% @home #1;"),
        strs(&["wait", "...", "50", "%", "@", "home", "#", "1", ";"])
    );
}

#[test]
fn question_and_exclamation() {
    assert_eq!(tokens("Why? No!"), strs(&["Why", "?", "No", "!"]));
}

#[test]
fn possessive_and_long_suffixes() {
    assert_eq!(
        tokens("John's they'll we're I've I'm he'd"),
        strs(&["John", "'s", "they", "'ll", "we", "'re", "I", "'ve", "I", "'m", "he", "'d"])
    );
}

#[test]
fn contractions_ignore_case() {
    assert_eq!(
        tokens("CANNOT Gimme gotta lemme d'ye"),
        strs(&["CAN", "NOT", "Gim", "me", "got", "ta", "lem", "me", "d", "'ye"])
    );
}

#[test]
fn tis_and_twas_split() {
    assert_eq!(tokens("so 'tis and 'twas"), strs(&["so", "'t", "is", "and", "'t", "was"]));
}

#[test]
fn period_before_closing_bracket() {
    assert_eq!(tokens("(It ends.)"), strs(&["-LRB-", "It", "ends", ".", "-RRB-"]));
}

#[test]
fn double_dash_and_angle_brackets() {
    assert_eq!(tokens("a--b <c>"), strs(&["a", "--", "b", "<", "c", ">"]));
}

#[test]
fn opening_quote_after_bracket() {
    assert_eq!(tokens("(\"x\")"), strs(&["-LRB-", "``", "x", "''", "-RRB-"]));
}

#[test]
fn doubled_single_quotes() {
    assert_eq!(tokens("''Hi''"), strs(&["''", "Hi", "''"]));
}

#[test]
fn quote_opening_text() {
    assert_eq!(tokens("\"Hi\""), strs(&["``", "Hi", "''"]));
}

#[test]
fn apostrophe_before_space() {
    assert_eq!(tokens("the boys' toys"), strs(&["the", "boys", "'", "toys"]));
}

#[test]
fn non_ascii_digit_keeps_comma() {
    assert_eq!(tokens("\u{661},\u{662}"), strs(&["\u{661},\u{662}"]));
}

#[test]
fn gonna_after_word_character_stays() {
    assert_eq!(tokens("xgonna"), strs(&["xgonna"]));
}
