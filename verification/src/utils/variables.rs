//! Placeholders of the form `{{ name }}` and what is put in their place.
//!
//! The grammars of a placeholder and of a reference to an environment
//! variable are this library's own. The spec functions `placeholder` and
//! `env_reference` are their whole statement, and the functions that fill a
//! text are proved against them: no pattern engine stands behind them. A
//! placeholder that holds nothing but white space has the empty name.

use crate::models::config::pair_texts;
use crate::text::{
    chars_to_string, concat_chars, find_char, first_index_of, has_prefix, matches_at, replace_all,
    replaced, same_chars, slice_of, to_chars, trim, trim_chars,
};
use crate::utils::string::{pascal_case_with_dots, StringUtils};
use vstd::prelude::*;
use vstd::string::*;

verus! {

/// The placeholder that begins `s`, if one does: its name, and the number
/// of characters that it takes. A placeholder is `{{`, then at least one
/// character other than `}`, then `}}`; its name is what stands between the
/// braces, without white space at either end.
pub open spec fn placeholder(s: Seq<char>) -> Option<(Seq<char>, int)> {
    if has_prefix(s, "{{"@) {
        let body = s.skip(2);
        let n = first_index_of(body, '}');
        if 1 <= n && n + 2 <= body.len() && body[n + 1] == '}' {
            Some((trim(body.take(n)), n + 4))
        } else {
            None
        }
    } else {
        None
    }
}

/// The value of `key` among `pairs`: that of the last pair with this key.
pub open spec fn lookup(pairs: Seq<(Seq<char>, Seq<char>)>, key: Seq<char>) -> Option<Seq<char>>
    decreases pairs.len(),
{
    if pairs.len() == 0 {
        None
    } else if pairs.last().0 == key {
        Some(pairs.last().1)
    } else {
        lookup(pairs.drop_last(), key)
    }
}

/// How placeholders are filled.
pub enum Fill {
    /// With a reference to the variable, for generated code.
    Usage,
    /// With the variable's value: from the first list if it has the name,
    /// else from the second; a name that neither has stays a placeholder.
    Values { extra: Seq<(Seq<char>, Seq<char>)>, vars: Seq<(Seq<char>, Seq<char>)> },
}

/// What is put in the place of the placeholder named `key`.
pub open spec fn filling(fill: Fill, key: Seq<char>) -> Seq<char> {
    match fill {
        Fill::Usage => "${"@ + pascal_case_with_dots(replaced(key, "vars."@, ""@)) + "}"@,
        Fill::Values { extra, vars } => match lookup(extra, key) {
            Some(v) => v,
            None => match lookup(vars, key) {
                Some(v) => v,
                None => "${{"@ + key + "}}"@,
            },
        },
    }
}

/// `s` with every placeholder filled, going from left to right.
pub open spec fn filled(s: Seq<char>, fill: Fill) -> Seq<char>
    decreases s.len(),
{
    if s.len() == 0 {
        Seq::empty()
    } else {
        match placeholder(s) {
            Some((key, taken)) => if 0 < taken <= s.len() {
                filling(fill, key) + filled(s.skip(taken), fill)
            } else {
                s
            },
            None => seq![s[0]] + filled(s.skip(1), fill),
        }
    }
}

/// The value of `key` among `pairs`.
pub fn find_value(pairs: &Vec<(String, String)>, key: &Vec<char>) -> (r: Option<Vec<char>>)
    ensures
        match r {
            Some(v) => lookup(pair_texts(pairs@), key@) == Some(v@),
            None => lookup(pair_texts(pairs@), key@) is None,
        },
{
    let mut i: usize = pairs.len();
    proof {
        assert(pair_texts(pairs@).take(i as int) =~= pair_texts(pairs@));
    }
    while i > 0
        invariant
            i <= pairs.len(),
            lookup(pair_texts(pairs@), key@) == lookup(pair_texts(pairs@).take(i as int), key@),
        decreases i,
    {
        let ghost upto = pair_texts(pairs@).take(i as int);
        let name = to_chars(pairs[i - 1].0.as_str());
        proof {
            assert(upto.last() == pair_texts(pairs@)[i - 1]);
            assert(upto.drop_last() =~= pair_texts(pairs@).take(i - 1));
        }
        if same_chars(&name, key) {
            return Some(to_chars(pairs[i - 1].1.as_str()));
        }
        i -= 1;
    }
    None
}

/// How placeholders are filled, with the data at hand.
enum FillWith<'a> {
    Usage,
    Values { extra: Option<&'a Vec<(String, String)>>, vars: &'a Vec<(String, String)> },
}

impl<'a> FillWith<'a> {
    spec fn view(&self) -> Fill {
        match self {
            FillWith::Usage => Fill::Usage,
            FillWith::Values { extra, vars } => Fill::Values {
                extra: match extra {
                    Some(e) => pair_texts(e@),
                    None => Seq::empty(),
                },
                vars: pair_texts(vars@),
            },
        }
    }

    fn filling_for(&self, key: &Vec<char>) -> (out: Vec<char>)
        ensures
            out@ == filling(self.view(), key@),
    {
        match self {
            FillWith::Usage => {
                let prefix = to_chars("vars.");
                let nothing: Vec<char> = Vec::new();
                proof {
                    reveal_strlit("");
                    assert(nothing@ =~= ""@);
                }
                let bare = replace_all(key, &prefix, &nothing);
                let bare_text = chars_to_string(&bare);
                let name = StringUtils::to_pascal_case_with_dots(bare_text.as_str());
                let mut out = String::from_str("${");
                out.append(name.as_str());
                out.append("}");
                to_chars(out.as_str())
            },
            FillWith::Values { extra, vars } => {
                match extra {
                    Some(e) => {
                        match find_value(e, key) {
                            Some(v) => {
                                return v;
                            },
                            None => {},
                        }
                    },
                    None => {},
                }
                match find_value(vars, key) {
                    Some(v) => v,
                    None => {
                        let key_text = chars_to_string(key);
                        let mut out = String::from_str("${{");
                        out.append(key_text.as_str());
                        out.append("}}");
                        to_chars(out.as_str())
                    },
                }
            },
        }
    }
}

/// The placeholder that stands at index `i` of `s`.
fn placeholder_at(s: &Vec<char>, i: usize) -> (r: Option<(Vec<char>, usize)>)
    requires
        i <= s.len(),
    ensures
        match r {
            Some((key, taken)) => placeholder(s@.skip(i as int)) == Some((key@, taken as int)) && 0
                < taken && i + taken <= s.len(),
            None => placeholder(s@.skip(i as int)) is None,
        },
{
    let open = to_chars("{{");
    let ghost rest = s@.skip(i as int);
    proof {
        reveal_strlit("{{");
        if i + 2 <= s.len() {
            assert(rest.subrange(0, 2) =~= s@.subrange(i as int, i + 2));
        }
    }
    if !matches_at(s, &open, i) {
        return None;
    }
    let body = slice_of(s, i + 2, s.len());
    assert(body@ =~= rest.skip(2));
    let n: usize = find_char(&body, '}');
    if n >= 1 && body.len() >= 2 && n <= body.len() - 2 && body[n + 1] == '}' {
        let inner = slice_of(&body, 0, n);
        assert(inner@ == body@.take(n as int));
        let key = trim_chars(&inner);
        Some((key, n + 4))
    } else {
        None
    }
}

fn fill_all(s: &Vec<char>, fill: &FillWith<'_>) -> (out: Vec<char>)
    ensures
        out@ == filled(s@, fill.view()),
{
    let mut out: Vec<char> = Vec::new();
    let mut i: usize = 0;
    proof {
        assert(s@.skip(0) =~= s@);
        assert(out@ + filled(s@, fill.view()) =~= filled(s@, fill.view()));
    }
    while i < s.len()
        invariant
            i <= s.len(),
            filled(s@, fill.view()) == out@ + filled(s@.skip(i as int), fill.view()),
        decreases s.len() - i,
    {
        let ghost rest = s@.skip(i as int);
        let ghost done = out@;
        match placeholder_at(s, i) {
            Some((key, taken)) => {
                let value = fill.filling_for(&key);
                out = concat_chars(&out, &value);
                proof {
                    assert(rest.skip(taken as int) =~= s@.skip(i + taken));
                    assert(done + value@ + filled(rest.skip(taken as int), fill.view()) =~= done + (
                    value@ + filled(rest.skip(taken as int), fill.view())));
                }
                i += taken;
            },
            None => {
                out.push(s[i]);
                proof {
                    assert(rest[0] == s@[i as int]);
                    assert(rest.skip(1) =~= s@.skip(i + 1));
                    assert(done.push(s@[i as int]) + filled(rest.skip(1), fill.view()) =~= done + (
                    seq![rest[0]] + filled(rest.skip(1), fill.view())));
                }
                i += 1;
            },
        }
    }
    proof {
        assert(s@.skip(i as int) =~= Seq::<char>::empty());
        assert(out@ + Seq::<char>::empty() =~= out@);
    }
    out
}

pub open spec fn optional_pairs(extra: Option<&Vec<(String, String)>>) -> Seq<(Seq<char>, Seq<char>)> {
    match extra {
        Some(e) => pair_texts(e@),
        None => Seq::empty(),
    }
}

pub struct VariablesUtils {}

impl VariablesUtils {
    /// `input` with every placeholder turned into a reference to the
    /// variable, in the form that generated code wants:
    /// `{{ vars.login.user }}` becomes `${Login.user}`.
    pub fn replace_var_usage(input: &str) -> (r: String)
        ensures
            r@ == filled(input@, Fill::Usage),
    {
        let chars = to_chars(input);
        let out = fill_all(&chars, &FillWith::Usage);
        chars_to_string(&out)
    }

    /// `input` with every placeholder filled with its value: that of
    /// `extra_map` if it has the name, else that of `vars`. A placeholder
    /// whose name neither has is left as `${{name}}`.
    pub fn replace_vars(
        input: &str,
        vars: &Vec<(String, String)>,
        extra_map: Option<&Vec<(String, String)>>,
    ) -> (r: String)
        ensures
            r@ == filled(
                input@,
                Fill::Values { extra: optional_pairs(extra_map), vars: pair_texts(vars@) },
            ),
    {
        let chars = to_chars(input);
        let out = fill_all(&chars, &FillWith::Values { extra: extra_map, vars });
        chars_to_string(&out)
    }
}

} // verus!

verus! {

/// A character of a variable's name: an ASCII letter, a digit or `_`.
pub open spec fn is_name_char(c: char) -> bool {
    ('a' <= c && c <= 'z') || ('A' <= c && c <= 'Z') || ('0' <= c && c <= '9') || c == '_'
}

/// A character with which the name of a bare reference begins: an ASCII
/// letter or `_`.
pub open spec fn is_name_start(c: char) -> bool {
    ('a' <= c && c <= 'z') || ('A' <= c && c <= 'Z') || c == '_'
}

/// The number of name characters with which `s` begins.
pub open spec fn name_run(s: Seq<char>) -> int
    decreases s.len(),
{
    if s.len() == 0 || !is_name_char(s[0]) {
        0
    } else {
        1 + name_run(s.skip(1))
    }
}

/// The reference to an environment variable that begins `s`, if one does:
/// the variable's name and the number of characters that the reference
/// takes. A reference is `${NAME}`, or `$NAME` with a name that does not
/// begin with a digit.
pub open spec fn env_reference(s: Seq<char>) -> Option<(Seq<char>, int)> {
    if s.len() >= 2 && s[0] == '$' && s[1] == '{' {
        let n = name_run(s.skip(2));
        if n >= 1 && 2 + n < s.len() && s[2 + n] == '}' {
            Some((s.subrange(2, 2 + n), n + 3))
        } else {
            None
        }
    } else if s.len() >= 2 && s[0] == '$' && is_name_start(s[1]) {
        let n = name_run(s.skip(1));
        Some((s.subrange(1, 1 + n), n + 1))
    } else {
        None
    }
}

/// `s` with every reference to an environment variable replaced by the
/// variable's value in `env`, or by nothing if `env` has no such variable.
pub open spec fn env_expanded(s: Seq<char>, env: Seq<(Seq<char>, Seq<char>)>) -> Seq<char>
    decreases s.len(),
{
    if s.len() == 0 {
        Seq::empty()
    } else {
        match env_reference(s) {
            Some((name, taken)) => if 0 < taken <= s.len() {
                (match lookup(env, name) {
                    Some(v) => v,
                    None => Seq::empty(),
                }) + env_expanded(s.skip(taken), env)
            } else {
                s
            },
            None => seq![s[0]] + env_expanded(s.skip(1), env),
        }
    }
}

fn name_char(c: char) -> (b: bool)
    ensures
        b == is_name_char(c),
{
    ('a' <= c && c <= 'z') || ('A' <= c && c <= 'Z') || ('0' <= c && c <= '9') || c == '_'
}

/// The number of name characters that stand in `s` from index `from` on.
fn run_from(s: &Vec<char>, from: usize) -> (n: usize)
    requires
        from <= s.len(),
    ensures
        n == name_run(s@.skip(from as int)),
        from + n <= s.len(),
{
    let mut i: usize = from;
    proof {
        assert(s@.skip(from as int).skip(0) =~= s@.skip(from as int));
    }
    while i < s.len() && name_char(s[i])
        invariant
            from <= i <= s.len(),
            name_run(s@.skip(from as int)) == (i - from) + name_run(s@.skip(i as int)),
        decreases s.len() - i,
    {
        proof {
            assert(s@.skip(i as int)[0] == s@[i as int]);
            assert(s@.skip(i as int).skip(1) =~= s@.skip(i + 1));
        }
        i += 1;
    }
    proof {
        if i < s.len() {
            assert(s@.skip(i as int)[0] == s@[i as int]);
        }
    }
    i - from
}

fn reference_at(s: &Vec<char>, i: usize) -> (r: Option<(Vec<char>, usize)>)
    requires
        i < s.len(),
    ensures
        match r {
            Some((name, taken)) => env_reference(s@.skip(i as int)) == Some((name@, taken as int))
                && 0 < taken && i + taken <= s.len(),
            None => env_reference(s@.skip(i as int)) is None,
        },
{
    let ghost rest = s@.skip(i as int);
    if s[i] != '$' || s.len() - i < 2 {
        return None;
    }
    proof {
        assert(rest[0] == s@[i as int]);
        assert(rest[1] == s@[i + 1]);
    }
    let next: char = s[i + 1];
    if next == '{' {
        let n = run_from(s, i + 2);
        proof {
            assert(rest.skip(2) =~= s@.skip(i + 2));
        }
        if n >= 1 && i + 2 + n < s.len() && s[i + 2 + n] == '}' {
            proof {
                assert(rest[2 + n] == s@[i + 2 + n]);
                assert(rest.subrange(2, 2 + n) =~= s@.subrange(i + 2, i + 2 + n));
            }
            let name = slice_of(s, i + 2, i + 2 + n);
            Some((name, n + 3))
        } else {
            proof {
                if 2 + n < rest.len() {
                    assert(rest[2 + n] == s@[i + 2 + n]);
                }
            }
            None
        }
    } else if ('a' <= next && next <= 'z') || ('A' <= next && next <= 'Z') || next == '_' {
        let n = run_from(s, i + 1);
        proof {
            assert(rest.skip(1) =~= s@.skip(i + 1));
            assert(rest.subrange(1, 1 + n) =~= s@.subrange(i + 1, i + 1 + n));
        }
        let name = slice_of(s, i + 1, i + 1 + n);
        Some((name, n + 1))
    } else {
        None
    }
}

impl VariablesUtils {
    /// `input` with every `${NAME}` and `$NAME` replaced by the value of
    /// the environment variable `NAME`, as `env` gives it, or by nothing
    /// if `env` does not have the variable.
    pub fn expand_env_vars(input: &str, env: &Vec<(String, String)>) -> (r: String)
        ensures
            r@ == env_expanded(input@, pair_texts(env@)),
    {
        let s = to_chars(input);
        let mut out: Vec<char> = Vec::new();
        let mut i: usize = 0;
        let ghost e = pair_texts(env@);
        proof {
            assert(s@.skip(0) =~= s@);
            assert(out@ + env_expanded(s@, e) =~= env_expanded(s@, e));
        }
        while i < s.len()
            invariant
                i <= s.len(),
                e == pair_texts(env@),
                env_expanded(s@, e) == out@ + env_expanded(s@.skip(i as int), e),
            decreases s.len() - i,
        {
            let ghost rest = s@.skip(i as int);
            let ghost done = out@;
            match reference_at(&s, i) {
                Some((name, taken)) => {
                    let value: Vec<char> = match find_value(env, &name) {
                        Some(v) => v,
                        None => Vec::new(),
                    };
                    out = concat_chars(&out, &value);
                    proof {
                        assert(rest.skip(taken as int) =~= s@.skip(i + taken));
                        assert(done + value@ + env_expanded(rest.skip(taken as int), e) =~= done + (
                        value@ + env_expanded(rest.skip(taken as int), e)));
                    }
                    i += taken;
                },
                None => {
                    out.push(s[i]);
                    proof {
                        assert(rest[0] == s@[i as int]);
                        assert(rest.skip(1) =~= s@.skip(i + 1));
                        assert(done.push(s@[i as int]) + env_expanded(rest.skip(1), e) =~= done + (
                        seq![rest[0]] + env_expanded(rest.skip(1), e)));
                    }
                    i += 1;
                },
            }
        }
        proof {
            assert(s@.skip(i as int) =~= Seq::<char>::empty());
            assert(out@ + Seq::<char>::empty() =~= out@);
        }
        chars_to_string(&out)
    }
}

} // verus!
