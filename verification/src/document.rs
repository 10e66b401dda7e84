//! The document that is read: a sequence of words, replaced as a whole when
//! another text is loaded.

use vstd::prelude::*;
use crate::error::ReaderError;
use crate::words::{all_words, lemma_words_are_words, tokenize, words_of};

verus! {

/// What loading `text` answers: the number of its words, or that it holds
/// none.
pub open spec fn load_result(text: Seq<char>) -> Result<usize, ReaderError> {
    if words_of(text).len() == 0 {
        Err(ReaderError::EmptyDocument)
    } else {
        Ok(words_of(text).len() as usize)
    }
}

/// The words of the loaded text, in order; none where nothing is loaded.
pub struct Document {
    words: Vec<String>,
}

impl View for Document {
    type V = Seq<Seq<char>>;

    closed spec fn view(&self) -> Seq<Seq<char>> {
        self.words.deep_view()
    }
}

impl Document {
    #[verifier::type_invariant]
    pub open spec fn inv(self) -> bool {
        all_words(self@)
    }

    /// The document before anything is loaded.
    pub fn new() -> (document: Self)
        ensures
            document@ == Seq::<Seq<char>>::empty(),
    {
        let document = Document { words: Vec::new() };
        assert(document@ =~= Seq::<Seq<char>>::empty());
        document
    }

    /// The number of words.
    pub fn len(&self) -> (count: usize)
        ensures
            count == self@.len(),
            all_words(self@),
    {
        proof {
            use_type_invariant(self);
        }
        self.words.len()
    }

    /// The word at `index`, where there is one.
    pub fn word(&self, index: usize) -> (word: Option<&str>)
        ensures
            index < self@.len() ==> word is Some && word->0@ == self@[index as int],
            index >= self@.len() ==> word is None,
    {
        if index < self.words.len() {
            Some(self.words[index].as_str())
        } else {
            None
        }
    }

    /// All words, in order.
    pub fn words(&self) -> (words: &Vec<String>)
        ensures
            words.deep_view() == self@,
            all_words(self@),
    {
        proof {
            use_type_invariant(self);
        }
        &self.words
    }

    /// Puts the words of `text` in the place of the document.
    ///
    /// Answers with the number of words, or with
    /// [`ReaderError::EmptyDocument`] where `text` holds none; the document
    /// is then empty.
    pub fn load(&mut self, text: &str) -> (loaded: Result<usize, ReaderError>)
        ensures
            final(self)@ == words_of(text@),
            loaded == load_result(text@),
            all_words(final(self)@),
    {
        let words = tokenize(text);
        proof {
            lemma_words_are_words(text@);
        }
        let count = words.len();
        self.words = words;
        if count == 0 {
            Err(ReaderError::EmptyDocument)
        } else {
            Ok(count)
        }
    }
}

} // verus!
