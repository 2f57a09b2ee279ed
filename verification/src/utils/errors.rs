//! Errors as text.

use vstd::prelude::*;
use vstd::string::*;

verus! {

/// The `Debug` form of the text `s`: between double quotes, with what
/// cannot stand there escaped.
pub uninterp spec fn debug_text(s: Seq<char>) -> Seq<char>;

/// Writes a text in its `Debug` form with `format!`.
#[verifier::external_body]
fn debug_form(s: &str) -> (out: String)
    ensures
        out@ == debug_text(s@),
{
    format!("{s:?}")
}

/// Results whose error is put behind a description.
pub trait ResultTrait<T> {
    /// What `auto_err` returns.
    spec fn described(self, desc: Seq<char>) -> Result<T, Seq<char>>;

    /// The value, or the error in its `Debug` form behind `desc` and a
    /// colon.
    fn auto_err(self, desc: &str) -> (r: Result<T, String>)
        ensures
            match r {
                Ok(t) => self.described(desc@) == Ok::<T, Seq<char>>(t),
                Err(e) => self.described(desc@) == Err::<T, Seq<char>>(e@),
            },
    ;
}

impl<T> ResultTrait<T> for Result<T, String> {
    open spec fn described(self, desc: Seq<char>) -> Result<T, Seq<char>> {
        match self {
            Ok(t) => Ok(t),
            Err(e) => Err(desc + ": "@ + debug_text(e@)),
        }
    }

    fn auto_err(self, desc: &str) -> (r: Result<T, String>) {
        match self {
            Ok(t) => Ok(t),
            Err(e) => {
                let mut message = String::from_str(desc);
                message.append(": ");
                message.append(debug_form(e.as_str()).as_str());
                Err(message)
            },
        }
    }
}

/// Options whose absence is an error with a description.
pub trait OptionResultTrait<T> {
    /// What `auto_err` returns.
    spec fn required(self, desc: Seq<char>) -> Result<T, Seq<char>>;

    /// The value, or an error that says that what `desc` names is
    /// missing.
    fn auto_err(self, desc: &str) -> (r: Result<T, String>)
        ensures
            match r {
                Ok(t) => self.required(desc@) == Ok::<T, Seq<char>>(t),
                Err(e) => self.required(desc@) == Err::<T, Seq<char>>(e@),
            },
    ;
}

impl<T> OptionResultTrait<T> for Option<T> {
    open spec fn required(self, desc: Seq<char>) -> Result<T, Seq<char>> {
        match self {
            Some(t) => Ok(t),
            None => Err(desc + ": None Option"@),
        }
    }

    fn auto_err(self, desc: &str) -> (r: Result<T, String>) {
        match self {
            Some(t) => Ok(t),
            None => {
                let mut message = String::from_str(desc);
                message.append(": None Option");
                Err(message)
            },
        }
    }
}

} // verus!
