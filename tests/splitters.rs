use nlp_core::process_str;
use nlp_core::simple::{SimpleLineTokenizer, SimpleSentenceTokenizer, SimpleTokenizer, SimpleWordTokenizer};
use nlp_core::whitespace::{
    BlanklineRegexTokenizer, WhitespaceRegexTokenizer, WordPunctuationRegexTokenizer,
};
use nlp_core::{FullTokenizer, Tokenizer};

#[test]
fn process_str_rejects_empty() {
    assert_eq!(process_str(""), None);
}

#[test]
fn process_str_trims() {
    assert_eq!(process_str(" \tab c\n"), Some("ab c"));
}

#[test]
fn process_str_keeps_whitespace_piece_as_empty() {
    assert_eq!(process_str("   "), Some(""));
}

#[test]
fn word_split_keeps_blank_pieces_as_empty() {
    let t = SimpleTokenizer::new("  Hello, world ");
    assert_eq!(t.word_split(), vec!["Hello", ",", "", "world"]);
}

#[test]
fn word_tokenizer_matches_word_split() {
    let w = SimpleWordTokenizer::new("The quick (\"brown\") fox");
    assert_eq!(
        w.tokenize(),
        vec!["The", "", "quick", "", "(", "\"", "brown", "\"", ")", "", "fox"]
    );
}

#[test]
fn sentence_split_trims_sentences() {
    let t = SimpleTokenizer::new("Mr. Fox jumped. [...] The dog was too lazy.");
    assert_eq!(t.sentence_split(), vec!["Mr.", "Fox jumped.", "The dog was too lazy."]);
}

#[test]
fn sentence_tokenizer() {
    let t = SimpleSentenceTokenizer::new(" One. Two? ");
    assert_eq!(t.tokenize(), vec!["One.", "Two?"]);
}

#[test]
fn line_split_drops_empty_lines() {
    let t = SimpleTokenizer::new("a\n\n b \r\nc\n");
    assert_eq!(t.line_split(), vec!["a", "b", "c"]);
}

#[test]
fn line_tokenizer() {
    let t = SimpleLineTokenizer::new("\n first\nsecond \n\n");
    assert_eq!(t.tokenize(), vec!["first", "second"]);
}

#[test]
fn whitespace_tokenizer_splits_runs() {
    let t = WhitespaceRegexTokenizer::new("  a  b\t\nc\u{3000}d ");
    assert_eq!(t.tokenize(), vec!["a", "b", "c", "d"]);
}

#[test]
fn whitespace_tokenizer_on_blank_text() {
    let t = WhitespaceRegexTokenizer::new(" \n ");
    assert_eq!(t.tokenize(), Vec::<&str>::new());
}

#[test]
fn word_punctuation_runs() {
    let t = WordPunctuationRegexTokenizer::new(" Hello, world!! It's 3.5 ");
    assert_eq!(
        t.tokenize(),
        vec!["Hello", ",", "world", "!!", "It", "'", "s", "3", ".", "5"]
    );
}

#[test]
fn word_punctuation_mixed_run() {
    let t = WordPunctuationRegexTokenizer::new("a_b-c,.d");
    assert_eq!(t.tokenize(), vec!["a_b", "-", "c", ",.", "d"]);
}

#[test]
fn blank_lines_separate_blocks() {
    let t = BlanklineRegexTokenizer::new("first line\nstill first\n\n  \n second\n \nthird ");
    assert_eq!(t.tokenize(), vec!["first line\nstill first", "second", "third"]);
}

#[test]
fn blank_lines_need_two_line_feeds() {
    let t = BlanklineRegexTokenizer::new("a\n b \r\n c");
    assert_eq!(t.tokenize(), vec!["a\n b \r\n c"]);
}
