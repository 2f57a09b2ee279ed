//! Names in the form that generated code wants.

use crate::text::{chars_to_string, contains, to_chars};
use vstd::prelude::*;
use vstd::string::*;

verus! {

/// The upper-case form of `c`, as `char::to_uppercase` gives it: one
/// character or more.
pub uninterp spec fn upper_case_of(c: char) -> Seq<char>;

/// Maps a character to upper case with `char::to_uppercase`.
#[verifier::external_body]
fn upper_case(c: char) -> (out: Vec<char>)
    ensures
        out@ == upper_case_of(c),
{
    c.to_uppercase().collect()
}

/// A character that parts the words of a name.
pub open spec fn is_word_break(c: char) -> bool {
    c == '_' || c == '-'
}

/// `name` in Pascal case: the words between `_` and `-` are joined, each
/// with its first character in upper case. `at_start` says whether the next
/// character begins a word.
pub open spec fn pascal_from(name: Seq<char>, at_start: bool) -> Seq<char>
    decreases name.len(),
{
    if name.len() == 0 {
        Seq::empty()
    } else if is_word_break(name[0]) {
        pascal_from(name.skip(1), true)
    } else if at_start {
        upper_case_of(name[0]) + pascal_from(name.skip(1), false)
    } else {
        seq![name[0]] + pascal_from(name.skip(1), false)
    }
}

/// `name` in Pascal case.
pub open spec fn pascal_case(name: Seq<char>) -> Seq<char> {
    pascal_from(name, true)
}

/// `name` in Pascal case if it holds a dot, else as it is.
pub open spec fn pascal_case_with_dots(name: Seq<char>) -> Seq<char> {
    if crate::text::contains_seq(name, seq!['.']) {
        pascal_case(name)
    } else {
        name
    }
}

pub struct StringUtils;

impl StringUtils {
    /// `name` in Pascal case if it holds a dot, else as it is.
    pub fn to_pascal_case_with_dots(name: &str) -> (r: String)
        ensures
            r@ == pascal_case_with_dots(name@),
    {
        let chars = to_chars(name);
        let mut dot: Vec<char> = Vec::new();
        dot.push('.');
        assert(dot@ =~= seq!['.']);
        if !contains(&chars, &dot) {
            return String::from_str(name);
        }
        Self::to_pascal_case(name)
    }

    /// `name` in Pascal case: `my_var-name` becomes `MyVarName`.
    pub fn to_pascal_case(name: &str) -> (r: String)
        ensures
            r@ == pascal_case(name@),
    {
        let chars = to_chars(name);
        let mut out: Vec<char> = Vec::new();
        let mut at_start: bool = true;
        let mut i: usize = 0;
        proof {
            assert(chars@.skip(0) =~= chars@);
            assert(out@ + pascal_from(chars@, true) =~= pascal_from(chars@, true));
        }
        while i < chars.len()
            invariant
                i <= chars.len(),
                pascal_case(chars@) == out@ + pascal_from(chars@.skip(i as int), at_start),
            decreases chars.len() - i,
        {
            let c: char = chars[i];
            let ghost rest = chars@.skip(i as int);
            let ghost done = out@;
            proof {
                assert(rest[0] == c);
                assert(rest.skip(1) =~= chars@.skip(i + 1));
            }
            if c == '_' || c == '-' {
                at_start = true;
            } else if at_start {
                let upper = upper_case(c);
                let mut k: usize = 0;
                while k < upper.len()
                    invariant
                        k <= upper.len(),
                        out@ == done + upper@.take(k as int),
                    decreases upper.len() - k,
                {
                    out.push(upper[k]);
                    assert(upper@.take(k + 1) =~= upper@.take(k as int).push(upper@[k as int]));
                    k += 1;
                }
                proof {
                    assert(upper@.take(upper@.len() as int) =~= upper@);
                    assert(done + upper@ + pascal_from(rest.skip(1), false) =~= done + (upper@
                        + pascal_from(rest.skip(1), false)));
                }
                at_start = false;
            } else {
                out.push(c);
                proof {
                    assert(done.push(c) + pascal_from(rest.skip(1), false) =~= done + (seq![c]
                        + pascal_from(rest.skip(1), false)));
                }
            }
            i += 1;
        }
        proof {
            assert(chars@.skip(i as int) =~= Seq::<char>::empty());
            assert(out@ + Seq::<char>::empty() =~= out@);
        }
        chars_to_string(&out)
    }
}

} // verus!

verus! {

/// `s` in lower case, as `str::to_lowercase` gives it.
pub uninterp spec fn lower_case_of(s: Seq<char>) -> Seq<char>;

/// Maps a text to lower case with `str::to_lowercase`.
#[verifier::external_body]
pub(crate) fn to_lower_case(s: &str) -> (out: String)
    ensures
        out@ == lower_case_of(s@),
{
    s.to_lowercase()
}

} // verus!
