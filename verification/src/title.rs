//! The rules a todo's title must meet.

use vstd::prelude::*;
use crate::errors::{AppError, ErrorKind};

verus! {

/// The largest number of characters a title may have.
pub const MAX_TITLE_LEN: usize = 100;

/// Whether `c` carries the Unicode property `White_Space`, as
/// `char::is_whitespace` decides it.
pub uninterp spec fn is_whitespace(c: char) -> bool;

/// Calls `char::is_whitespace`. Trusted: the result is the value that
/// [`is_whitespace`] names, which depends on the character alone.
#[verifier::external_body]
fn char_is_whitespace(c: char) -> (b: bool)
    ensures
        b == is_whitespace(c),
{
    c.is_whitespace()
}

/// A text is blank when it has no character other than white space; the
/// empty text is blank.
pub open spec fn is_blank(s: Seq<char>) -> bool {
    forall|i: int| 0 <= i < s.len() ==> is_whitespace(#[trigger] s[i])
}

/// What is wrong with a title, if anything: the message of the rule it
/// breaks. Blankness is judged first.
pub open spec fn title_fault(s: Seq<char>) -> Option<Seq<char>> {
    verdict(is_blank(s), s.len())
}

/// The message for a title of `len` characters that is blank or not.
pub open spec fn verdict(blank: bool, len: nat) -> Option<Seq<char>> {
    if blank {
        Some("title cannot be empty"@)
    } else if len > MAX_TITLE_LEN {
        Some("title cannot be longer than 100 characters"@)
    } else {
        None
    }
}

/// Whether `r` is the outcome that the fault `fault` calls for: success
/// when there is none, and else a validation error with that message.
pub open spec fn reports(r: Result<(), AppError>, fault: Option<Seq<char>>) -> bool {
    match fault {
        Some(m) => r is Err && r->Err_0@ == ErrorKind::Validation(m),
        None => r is Ok,
    }
}

/// Whether every character of `s` is white space.
pub fn is_blank_text(s: &str) -> (blank: bool)
    ensures
        blank == is_blank(s@),
{
    let mut blank = true;
    for c in it: s.chars()
        invariant
            it.seq() == s@,
            blank == (forall|i: int| 0 <= i < it.index() ==> is_whitespace(#[trigger] s@[i])),
    {
        if !char_is_whitespace(c) {
            blank = false;
        }
    }
    blank
}

/// Judges a title from its two measures: whether it is blank, and how many
/// characters it has.
pub fn check_title(blank: bool, len: usize) -> (r: Result<(), AppError>)
    ensures
        reports(r, verdict(blank, len as nat)),
{
    if blank {
        return Err(AppError::Validation("title cannot be empty".to_string()));
    }
    if len > MAX_TITLE_LEN {
        return Err(AppError::Validation("title cannot be longer than 100 characters".to_string()));
    }
    Ok(())
}

/// Judges a title: it must not be blank, and must not have more than
/// [`MAX_TITLE_LEN`] characters.
pub fn validate_title(title: &str) -> (r: Result<(), AppError>)
    ensures
        reports(r, title_fault(title@)),
{
    let blank = is_blank_text(title);
    let len = title.unicode_len();
    check_title(blank, len)
}

} // verus!
