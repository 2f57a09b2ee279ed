//! Command lines, split as a shell splits them.

use vstd::prelude::*;
use vstd::string::*;

verus! {

/// The words into which `shlex::Shlex` splits `input`.
pub uninterp spec fn shell_words(input: Seq<char>) -> Seq<Seq<char>>;

pub open spec fn word_texts(words: Seq<String>) -> Seq<Seq<char>> {
    Seq::new(words.len(), |i: int| words[i]@)
}

/// Splits a command line with `shlex::Shlex`, by the rules of the POSIX
/// shell.
#[verifier::external_body]
fn split_words(input: &str) -> (words: Vec<String>)
    ensures
        word_texts(words@) == shell_words(input@),
{
    shlex::Shlex::new(input).collect()
}

/// A program and its arguments.
#[derive(Clone, Debug, PartialEq, Eq)]
pub struct ParsedCommand {
    pub program: String,
    pub args: Vec<String>,
}

pub struct ShlexUtils {}

impl ShlexUtils {
    /// Puts the words of a command line apart: the first is the program,
    /// the others are its arguments. A command line without a word is an
    /// error.
    pub fn from_words(input: &str, words: Vec<String>) -> (r: Result<ParsedCommand, String>)
        ensures
            match r {
                Ok(c) => words@.len() > 0 && c.program@ == words@[0]@ && word_texts(c.args@)
                    == word_texts(words@).skip(1),
                Err(e) => words@.len() == 0 && e@ == "Failed to split command: "@ + input@
                    + ": None Option"@,
            },
    {
        if words.len() == 0 {
            let mut e = String::from_str("Failed to split command: ");
            e.append(input);
            e.append(": None Option");
            return Err(e);
        }
        let program = words[0].clone();
        let mut args: Vec<String> = Vec::new();
        let mut i: usize = 1;
        while i < words.len()
            invariant
                1 <= i <= words.len(),
                args@.len() == i - 1,
                forall|k: int| 0 <= k < args@.len() ==> args@[k]@ == words@[k + 1]@,
            decreases words.len() - i,
        {
            args.push(words[i].clone());
            i += 1;
        }
        assert(word_texts(args@) =~= word_texts(words@).skip(1));
        Ok(ParsedCommand { program, args })
    }

    /// Reads a command line: the program and its arguments, split as a
    /// shell splits them.
    pub fn parse_command(input: &str) -> (r: Result<ParsedCommand, String>)
        ensures
            match r {
                Ok(c) => shell_words(input@).len() > 0 && c.program@ == shell_words(input@)[0]
                    && word_texts(c.args@) == shell_words(input@).skip(1),
                Err(e) => shell_words(input@).len() == 0 && e@ == "Failed to split command: "@
                    + input@ + ": None Option"@,
            },
    {
        let words = split_words(input);
        Self::from_words(input, words)
    }
}

} // verus!
