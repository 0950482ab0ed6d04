//! The labels under which requests and their outcomes are counted.

use vstd::prelude::*;

use crate::text::{chars_of, string_of};

verus! {

/// Whether `c` stays as it is in the path label of a metric: an ASCII letter or digit, or
/// a slash.
pub open spec fn keeps_in_label(c: char) -> bool {
    ||| 'a' <= c <= 'z'
    ||| 'A' <= c <= 'Z'
    ||| '0' <= c <= '9'
    ||| c == '/'
}

/// The label under which requests for `path` are counted: the path with an underscore in
/// place of every character that is neither an ASCII letter or digit nor a slash.
pub open spec fn path_label(path: Seq<char>) -> Seq<char> {
    Seq::new(
        path.len(),
        |i: int|
            if keeps_in_label(path[i]) {
                path[i]
            } else {
                '_'
            },
    )
}

/// The label under which requests for `path` are counted.
pub fn metric_path_label(path: &str) -> (r: String)
    ensures
        r@ == path_label(path@),
{
    let chars = chars_of(path);
    let mut out: Vec<char> = Vec::new();
    let mut i: usize = 0;
    while i < chars.len()
        invariant
            i <= chars.len(),
            out@ == path_label(chars@).take(i as int),
        decreases chars.len() - i,
    {
        let c = chars[i];
        let kept = ('a' <= c && c <= 'z') || ('A' <= c && c <= 'Z') || ('0' <= c && c <= '9') || c
            == '/';
        out.push(if kept {
            c
        } else {
            '_'
        });
        i += 1;
    }
    string_of(out.as_slice())
}

/// The outcome of a request as far as authentication goes.
#[derive(Debug)]
pub enum AuthOutcome {
    /// The request was turned down for the given reason.
    Failure(String),
    /// The request was made by the given user.
    Success(String),
    /// Nothing is known.
    Unknown,
}

/// The mathematical content of an [`AuthOutcome`].
pub enum AuthOutcomeView {
    Failure(Seq<char>),
    Success(Seq<char>),
    Unknown,
}

impl View for AuthOutcome {
    type V = AuthOutcomeView;

    open spec fn view(&self) -> AuthOutcomeView {
        match self {
            AuthOutcome::Failure(reason) => AuthOutcomeView::Failure(reason@),
            AuthOutcome::Success(username) => AuthOutcomeView::Success(username@),
            AuthOutcome::Unknown => AuthOutcomeView::Unknown,
        }
    }
}

} // verus!
