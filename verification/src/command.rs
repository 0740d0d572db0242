//! The command to launch: a program and its arguments.

use vstd::prelude::*;

verus! {

/// The words of `words` as sequences of bytes.
pub open spec fn words_of(words: Seq<Vec<u8>>) -> Seq<Seq<u8>> {
    Seq::new(words.len(), |i: int| words[i]@)
}

/// No byte of `word` is zero.
pub open spec fn nul_free(word: Seq<u8>) -> bool {
    forall|j: int| 0 <= j < word.len() ==> word[j] != 0
}

/// What makes a sequence of words a command line: there is a first word, the
/// program, and no word holds a zero byte, so each can be handed to the
/// system as a C string.
pub open spec fn valid_words(words: Seq<Seq<u8>>) -> bool {
    &&& words.len() >= 1
    &&& forall|i: int| 0 <= i < words.len() ==> nul_free(#[trigger] words[i])
}

/// `word` is the first word of `words` that holds a zero byte, and `at` is
/// where its first zero byte stands.
pub open spec fn first_nul(words: Seq<Seq<u8>>, word: int, at: int) -> bool {
    &&& 0 <= word < words.len()
    &&& forall|i: int| 0 <= i < word ==> nul_free(#[trigger] words[i])
    &&& 0 <= at < words[word].len()
    &&& words[word][at] == 0
    &&& forall|j: int| 0 <= j < at ==> words[word][j] != 0
}

/// Why a sequence of words is no command line.
#[derive(Clone, Copy, Debug, PartialEq, Eq, Structural)]
pub enum CommandLineError {
    /// There is no word at all, so no program to run.
    Empty,
    /// Word number `word` holds a zero byte at index `at`.
    InteriorNul { word: usize, at: usize },
}

/// A program name followed by its arguments, none with a zero byte in it.
#[derive(Debug, PartialEq, Eq)]
pub struct CommandLine {
    words: Vec<Vec<u8>>,
}

impl View for CommandLine {
    type V = Seq<Seq<u8>>;

    closed spec fn view(&self) -> Seq<Seq<u8>> {
        words_of(self.words@)
    }
}

impl CommandLine {
    #[verifier::type_invariant]
    spec fn inv(self) -> bool {
        valid_words(words_of(self.words@))
    }

    /// Checks `words` and keeps them, in their order, as a command line.
    ///
    /// Fails on an empty sequence, and on the first zero byte of the first
    /// word that holds one.
    pub fn new(words: Vec<Vec<u8>>) -> (checked: Result<CommandLine, CommandLineError>)
        ensures
            match checked {
                Ok(command) => valid_words(words_of(words@)) && command@ == words_of(words@),
                Err(CommandLineError::Empty) => words.len() == 0,
                Err(CommandLineError::InteriorNul { word, at }) => first_nul(
                    words_of(words@),
                    word as int,
                    at as int,
                ),
            },
    {
        if words.len() == 0 {
            return Err(CommandLineError::Empty);
        }
        let mut i: usize = 0;
        while i < words.len()
            invariant
                i <= words.len(),
                forall|k: int| 0 <= k < i ==> nul_free(#[trigger] words_of(words@)[k]),
            decreases words.len() - i,
        {
            match find_nul(&words[i]) {
                Some(at) => {
                    return Err(CommandLineError::InteriorNul { word: i, at });
                },
                None => {},
            }
            i += 1;
        }
        Ok(CommandLine { words })
    }

    /// The program to run: the first word.
    pub fn program(&self) -> (program: &Vec<u8>)
        ensures
            program@ == self@[0],
            nul_free(program@),
    {
        proof {
            use_type_invariant(self);
        }
        &self.words[0]
    }

    /// All the words, the program first: the argument vector to run it with.
    pub fn words(&self) -> (words: &Vec<Vec<u8>>)
        ensures
            words_of(words@) == self@,
            valid_words(self@),
    {
        proof {
            use_type_invariant(self);
        }
        &self.words
    }
}

/// Looks for the first zero byte of `word`.
fn find_nul(word: &Vec<u8>) -> (found: Option<usize>)
    ensures
        match found {
            Some(at) => at < word.len() && word[at as int] == 0 && forall|j: int|
                0 <= j < at ==> word[j] != 0,
            None => nul_free(word@),
        },
{
    let mut j: usize = 0;
    while j < word.len()
        invariant
            j <= word.len(),
            forall|k: int| 0 <= k < j ==> word[k] != 0,
        decreases word.len() - j,
    {
        if word[j] == 0 {
            return Some(j);
        }
        j += 1;
    }
    None
}

} // verus!
