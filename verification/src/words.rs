//! Splitting a document into its words.
//!
//! A word is a maximal run of characters that holds neither a space nor a
//! line feed. The model of a document is its `Seq<char>`; the model of its
//! words is the `Seq<Seq<char>>` that [`words_of`] gives.

use vstd::prelude::*;
use vstd::std_specs::iter::IteratorSpec;

verus! {

broadcast use vstd::string::group_string_axioms;

/// The two characters that separate words.
pub open spec fn is_delimiter(c: char) -> bool {
    c == ' ' || c == '\n'
}

/// No character of `word` separates words.
pub open spec fn delimiter_free(word: Seq<char>) -> bool {
    forall|i: int| 0 <= i < word.len() ==> !is_delimiter(#[trigger] word[i])
}

/// What a word is: at least one character, none of them a delimiter.
pub open spec fn is_word(word: Seq<char>) -> bool {
    word.len() > 0 && delimiter_free(word)
}

/// Every element of `words` is a word.
pub open spec fn all_words(words: Seq<Seq<char>>) -> bool {
    forall|i: int| 0 <= i < words.len() ==> is_word(#[trigger] words[i])
}

/// How many characters stand before the first delimiter of `text`: all of
/// them where it holds none.
pub open spec fn leading_run(text: Seq<char>) -> nat
    decreases text.len(),
{
    if text.len() == 0 || is_delimiter(text[0]) {
        0
    } else {
        1 + leading_run(text.drop_first())
    }
}

/// The words of `text`, in the order in which they stand in it.
///
/// A delimiter at the front is passed over; anything else begins a word,
/// which runs up to the next delimiter or to the end.
pub open spec fn words_of(text: Seq<char>) -> Seq<Seq<char>>
    decreases text.len(),
    via words_of_decreases
{
    if text.len() == 0 {
        Seq::empty()
    } else if is_delimiter(text[0]) {
        words_of(text.drop_first())
    } else {
        let n = leading_run(text) as int;
        seq![text.take(n)] + words_of(text.skip(n))
    }
}

#[via_fn]
proof fn words_of_decreases(text: Seq<char>) {
    lemma_leading_run_bounds(text);
}

/// The leading run ends inside the text, and is not empty where the text
/// begins with a character that is no delimiter.
pub proof fn lemma_leading_run_bounds(text: Seq<char>)
    ensures
        leading_run(text) <= text.len(),
        text.len() > 0 && !is_delimiter(text[0]) ==> leading_run(text) >= 1,
        forall|i: int| 0 <= i < leading_run(text) ==> !is_delimiter(#[trigger] text[i]),
        leading_run(text) < text.len() ==> is_delimiter(text[leading_run(text) as int]),
    decreases text.len(),
{
    if text.len() > 0 && !is_delimiter(text[0]) {
        let rest = text.drop_first();
        lemma_leading_run_bounds(rest);
        assert forall|i: int| 0 <= i < leading_run(text) implies !is_delimiter(
            #[trigger] text[i],
        ) by {
            if i > 0 {
                assert(text[i] == rest[i - 1]);
            }
        }
        if leading_run(text) < text.len() {
            assert(text[leading_run(text) as int] == rest[leading_run(rest) as int]);
        }
    }
}

/// A run of `n` characters without a delimiter, which a delimiter or the end
/// of the text follows, is the leading run.
pub proof fn lemma_leading_run_is(text: Seq<char>, n: int)
    requires
        0 <= n <= text.len(),
        forall|i: int| 0 <= i < n ==> !is_delimiter(#[trigger] text[i]),
        n < text.len() ==> is_delimiter(text[n]),
    ensures
        leading_run(text) == n,
    decreases n,
{
    if n > 0 {
        let rest = text.drop_first();
        assert forall|i: int| 0 <= i < n - 1 implies !is_delimiter(#[trigger] rest[i]) by {
            assert(rest[i] == text[i + 1]);
        }
        lemma_leading_run_is(rest, n - 1);
    }
}

/// A delimiter at position `at` ends nothing: the words after it are those
/// from the next position on.
proof fn lemma_pass_delimiter(text: Seq<char>, at: int)
    requires
        0 <= at < text.len(),
        is_delimiter(text[at]),
    ensures
        words_of(text.skip(at)) == words_of(text.skip(at + 1)),
{
    assert(text.skip(at).drop_first() =~= text.skip(at + 1));
}

/// A run without a delimiter from `start` to `end`, which a delimiter or the
/// end of the text follows, is the first word from `start` on.
proof fn lemma_take_word(text: Seq<char>, start: int, end: int)
    requires
        0 <= start < end <= text.len(),
        forall|i: int| start <= i < end ==> !is_delimiter(#[trigger] text[i]),
        end < text.len() ==> is_delimiter(text[end]),
    ensures
        words_of(text.skip(start)) == seq![text.subrange(start, end)] + words_of(
            text.skip(end),
        ),
{
    let tail = text.skip(start);
    assert forall|i: int| 0 <= i < end - start implies !is_delimiter(#[trigger] tail[i]) by {
        assert(tail[i] == text[start + i]);
    }
    lemma_leading_run_is(tail, end - start);
    assert(tail.take(end - start) =~= text.subrange(start, end));
    assert(tail.skip(end - start) =~= text.skip(end));
}

/// The words joined into one text, with a single space between neighbours.
pub open spec fn join_words(words: Seq<Seq<char>>) -> Seq<char>
    decreases words.len(),
{
    if words.len() == 0 {
        Seq::empty()
    } else if words.len() == 1 {
        words[0]
    } else {
        words[0] + seq![' '] + join_words(words.drop_first())
    }
}

/// The characters of `text` that are no delimiters, in their order.
pub open spec fn content_of(text: Seq<char>) -> Seq<char> {
    text.filter(|c: char| !is_delimiter(c))
}

/// Whatever the text, each of its words holds at least one character and no
/// delimiter.
pub proof fn lemma_words_are_words(text: Seq<char>)
    ensures
        all_words(words_of(text)),
    decreases text.len(),
{
    if text.len() == 0 {
    } else if is_delimiter(text[0]) {
        lemma_words_are_words(text.drop_first());
    } else {
        lemma_leading_run_bounds(text);
        let n = leading_run(text) as int;
        lemma_words_are_words(text.skip(n));
        let first = text.take(n);
        let later = words_of(text.skip(n));
        assert(is_word(first));
        assert forall|i: int| 0 <= i < words_of(text).len() implies is_word(
            #[trigger] words_of(text)[i],
        ) by {
            if i > 0 {
                assert(words_of(text)[i] == later[i - 1]);
            }
        }
    }
}

/// Words that were joined with single spaces come out again as they went
/// in: splitting undoes joining.
pub proof fn lemma_words_of_joined(words: Seq<Seq<char>>)
    requires
        all_words(words),
    ensures
        words_of(join_words(words)) == words,
    decreases words.len(),
{
    let text = join_words(words);
    if words.len() == 0 {
    } else if words.len() == 1 {
        let word = words[0];
        assert(is_word(word));
        assert(text.skip(0) =~= text);
        lemma_take_word(text, 0, text.len() as int);
        assert(text.subrange(0, text.len() as int) =~= word);
        assert(text.skip(text.len() as int) =~= Seq::<char>::empty());
        assert(words_of(text) =~= words);
    } else {
        let word = words[0];
        let rest = words.drop_first();
        let n = word.len() as int;
        assert(is_word(word));
        assert forall|i: int| 0 <= i < rest.len() implies is_word(#[trigger] rest[i]) by {
            assert(rest[i] == words[i + 1]);
        }
        lemma_words_of_joined(rest);
        assert(text.skip(0) =~= text);
        assert forall|i: int| 0 <= i < n implies !is_delimiter(#[trigger] text[i]) by {
            assert(text[i] == word[i]);
        }
        assert(text[n] == ' ');
        lemma_take_word(text, 0, n);
        lemma_pass_delimiter(text, n);
        assert(text.subrange(0, n) =~= word);
        assert(text.skip(n + 1) =~= join_words(rest));
        assert(words_of(text) =~= words);
    }
}

/// A text that is one word has that word, and no other.
pub proof fn lemma_words_of_word(word: Seq<char>)
    requires
        is_word(word),
    ensures
        words_of(word) == seq![word],
{
    assert(join_words(seq![word]) == word);
    lemma_words_of_joined(seq![word]);
}

/// A text has no word exactly when it holds nothing but delimiters.
pub proof fn lemma_no_words(text: Seq<char>)
    ensures
        words_of(text).len() == 0 <==> forall|i: int|
            0 <= i < text.len() ==> is_delimiter(#[trigger] text[i]),
    decreases text.len(),
{
    if text.len() > 0 && is_delimiter(text[0]) {
        let rest = text.drop_first();
        lemma_no_words(rest);
        if words_of(text).len() == 0 {
            assert forall|i: int| 0 <= i < text.len() implies is_delimiter(#[trigger] text[i]) by {
                if i > 0 {
                    assert(text[i] == rest[i - 1]);
                }
            }
        } else {
            let i = choose|i: int| 0 <= i < rest.len() && !is_delimiter(#[trigger] rest[i]);
            assert(text[i + 1] == rest[i]);
        }
    }
}

/// The words of two texts that a delimiter sets apart are the words of the
/// first, followed by the words of the second.
pub proof fn lemma_words_across_delimiter(before: Seq<char>, delimiter: char, after: Seq<char>)
    requires
        is_delimiter(delimiter),
    ensures
        words_of(before.push(delimiter) + after) == words_of(before) + words_of(after),
    decreases before.len(),
{
    let text = before.push(delimiter) + after;
    if before.len() == 0 {
        assert(text.drop_first() =~= after);
        assert(words_of(before) + words_of(after) =~= words_of(after));
    } else if is_delimiter(before[0]) {
        let rest = before.drop_first();
        lemma_words_across_delimiter(rest, delimiter, after);
        assert(text.drop_first() =~= rest.push(delimiter) + after);
    } else {
        lemma_leading_run_bounds(before);
        let n = leading_run(before) as int;
        assert forall|i: int| 0 <= i < n implies !is_delimiter(#[trigger] text[i]) by {
            assert(text[i] == before[i]);
        }
        assert(is_delimiter(text[n])) by {
            if n < before.len() {
                assert(text[n] == before[n]);
            }
        }
        lemma_leading_run_is(text, n);
        let rest = before.skip(n);
        lemma_words_across_delimiter(rest, delimiter, after);
        assert(text.take(n) =~= before.take(n));
        assert(text.skip(n) =~= rest.push(delimiter) + after);
        assert(words_of(text) =~= words_of(before) + words_of(after));
    }
}

/// Filtering the delimiters out of a text that holds none changes nothing.
proof fn lemma_content_of_delimiter_free(word: Seq<char>)
    requires
        delimiter_free(word),
    ensures
        content_of(word) == word,
    decreases word.len(),
{
    reveal(Seq::filter);
    if word.len() > 0 {
        lemma_content_of_delimiter_free(word.drop_last());
        assert(word.drop_last().push(word.last()) =~= word);
    }
}

/// The words of a text, set one after the other, are the text without its
/// delimiters: splitting loses no character and moves none.
pub proof fn lemma_words_hold_the_content(text: Seq<char>)
    ensures
        words_of(text).flatten() == content_of(text),
    decreases text.len(),
{
    let keep = |c: char| !is_delimiter(c);
    if text.len() == 0 {
        reveal(Seq::filter);
    } else if is_delimiter(text[0]) {
        let rest = text.drop_first();
        lemma_words_hold_the_content(rest);
        let head = seq![text[0]];
        assert(head.filter(keep) =~= Seq::<char>::empty()) by {
            reveal_with_fuel(Seq::filter, 2);
        }
        assert(text =~= head + rest);
        Seq::filter_distributes_over_add(head, rest, keep);
        assert(content_of(text) =~= content_of(rest));
    } else {
        lemma_leading_run_bounds(text);
        let n = leading_run(text) as int;
        let word = text.take(n);
        let rest = text.skip(n);
        lemma_words_hold_the_content(rest);
        lemma_content_of_delimiter_free(word);
        assert(text =~= word + rest);
        Seq::filter_distributes_over_add(word, rest, keep);
        let words = words_of(text);
        assert(words.first() == word);
        assert(words.drop_first() =~= words_of(rest));
        assert(words.flatten() =~= word + words_of(rest).flatten());
    }
}

/// Splitting a text, joining its words with single spaces and splitting
/// again gives the same words in the same order, and the joined text holds
/// the characters of the first, delimiters apart: only the spacing is lost.
pub proof fn lemma_split_join_round_trip(text: Seq<char>)
    ensures
        words_of(join_words(words_of(text))) == words_of(text),
        content_of(join_words(words_of(text))) == content_of(text),
{
    lemma_words_are_words(text);
    lemma_words_of_joined(words_of(text));
    lemma_words_hold_the_content(text);
    lemma_words_hold_the_content(join_words(words_of(text)));
}

/// Splits `text` into its words.
pub fn tokenize(text: &str) -> (words: Vec<String>)
    ensures
        words.deep_view() == words_of(text@),
{
    let mut words: Vec<String> = Vec::new();
    let mut current = String::new();
    let mut rest = text.chars();
    let ghost mut start: int = 0;
    let ghost mut at: int = 0;
    proof {
        assert(text@.skip(0) =~= text@);
        assert(words.deep_view() + words_of(text@) =~= words_of(text@));
    }
    loop
        invariant
            0 <= start <= at <= text@.len(),
            rest.remaining() == text@.skip(at),
            current@ == text@.subrange(start, at),
            forall|i: int| start <= i < at ==> !is_delimiter(#[trigger] text@[i]),
            words.deep_view() + words_of(text@.skip(start)) == words_of(text@),
        ensures
            at == text@.len(),
        decreases text@.len() - at,
    {
        match rest.next() {
            None => {
                break ;
            },
            Some(c) => {
                assert(c == text@[at]);
                if c == ' ' || c == '\n' {
                    if !current.as_str().is_empty() {
                        proof {
                            lemma_take_word(text@, start, at);
                            lemma_pass_delimiter(text@, at);
                        }
                        let ghost before = words.deep_view();
                        words.push(current);
                        current = String::new();
                        assert(words.deep_view() =~= before.push(text@.subrange(start, at)));
                    } else {
                        proof {
                            lemma_pass_delimiter(text@, at);
                        }
                    }
                    proof {
                        start = at + 1;
                    }
                } else {
                    current.push(c);
                }
                proof {
                    at = at + 1;
                }
            },
        }
    }
    if !current.as_str().is_empty() {
        proof {
            lemma_take_word(text@, start, at);
        }
        let ghost before = words.deep_view();
        words.push(current);
        assert(words.deep_view() =~= before.push(text@.subrange(start, at)));
    }
    words
}

} // verus!
