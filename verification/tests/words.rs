use speed_reader::document::Document;
use speed_reader::error::ReaderError;
use speed_reader::words::tokenize;

fn strings(words: &[&str]) -> Vec<String> {
    words.iter().map(|w| w.to_string()).collect()
}

#[test]
fn splits_on_spaces_and_line_feeds() {
    assert_eq!(tokenize("a b\nc"), strings(&["a", "b", "c"]));
}

#[test]
fn empty_text_has_no_words() {
    assert_eq!(tokenize(""), Vec::<String>::new());
}

#[test]
fn text_of_delimiters_has_no_words() {
    assert_eq!(tokenize(" \n \n\n  "), Vec::<String>::new());
}

#[test]
fn single_word_is_itself() {
    assert_eq!(tokenize("word"), strings(&["word"]));
}

#[test]
fn runs_of_delimiters_give_no_empty_words() {
    assert_eq!(tokenize("  one \n\n two   three\n"), strings(&["one", "two", "three"]));
}

#[test]
fn leading_and_trailing_delimiters_are_dropped() {
    assert_eq!(tokenize("\nfirst last "), strings(&["first", "last"]));
}

#[test]
fn tabs_and_carriage_returns_do_not_separate() {
    assert_eq!(tokenize("a\tb c\r\nd"), strings(&["a\tb", "c\r", "d"]));
}

#[test]
fn words_keep_characters_beyond_ascii() {
    assert_eq!(
        tokenize("Перетащите сюда\n文 é"),
        strings(&["Перетащите", "сюда", "文", "é"])
    );
}

#[test]
fn words_keep_their_order_and_repeats() {
    assert_eq!(tokenize("b a b a"), strings(&["b", "a", "b", "a"]));
}

#[test]
fn no_word_is_empty_or_holds_a_delimiter() {
    let words = tokenize(" mixed\n\nup   text with\nmany  gaps \n");
    assert_eq!(words.len(), 6);
    for word in &words {
        assert!(!word.is_empty());
        assert!(!word.contains(' '));
        assert!(!word.contains('\n'));
    }
}

#[test]
fn split_join_split_gives_the_same_words() {
    let texts = [
        "",
        " ",
        "a",
        "a b\nc",
        "  lots \n\n of   odd\nspacing  ",
        "Вы перетаскиваете 2 файл",
        "tab\tinside stays",
    ];
    for text in texts {
        let words = tokenize(text);
        let joined = words.join(" ");
        assert_eq!(tokenize(&joined), words);
    }
}

#[test]
fn joined_words_come_out_as_they_went_in() {
    let words = strings(&["one", "two", "three"]);
    assert_eq!(tokenize(&words.join(" ")), words);
}

#[test]
fn new_document_is_empty() {
    let document = Document::new();
    assert_eq!(document.len(), 0);
    assert_eq!(document.word(0), None);
    assert!(document.words().is_empty());
}

#[test]
fn document_load_counts_the_words() {
    let mut document = Document::new();
    assert_eq!(document.load("a b\nc"), Ok(3));
    assert_eq!(document.len(), 3);
    assert_eq!(document.word(0), Some("a"));
    assert_eq!(document.word(2), Some("c"));
    assert_eq!(document.word(3), None);
    assert_eq!(document.words(), &strings(&["a", "b", "c"]));
}

#[test]
fn document_load_replaces_the_whole_document() {
    let mut document = Document::new();
    assert_eq!(document.load("one two three four"), Ok(4));
    assert_eq!(document.load("x y"), Ok(2));
    assert_eq!(document.words(), &strings(&["x", "y"]));
}

#[test]
fn document_without_words_is_reported_and_empty() {
    let mut document = Document::new();
    assert_eq!(document.load("some words"), Ok(2));
    assert_eq!(document.load(" \n "), Err(ReaderError::EmptyDocument));
    assert_eq!(document.len(), 0);
    assert_eq!(document.load(""), Err(ReaderError::EmptyDocument));
    assert_eq!(document.len(), 0);
}
