//! Rules for usernames and display names, and the types that carry a checked value.

use vstd::prelude::*;
use vstd::utf8::{encode_utf8, is_ascii_chars, is_ascii_chars_encode_utf8};

use crate::errors::{AppError, AppErrorView, ErrorCode};
use crate::text::{chars_of, string_of, trim, trimmed, utf8_length};

verus! {

/// Whether `c` may occur in a username: an ASCII letter or digit, `_` or `-`.
pub open spec fn is_username_char(c: char) -> bool {
    ||| 'a' <= c <= 'z'
    ||| 'A' <= c <= 'Z'
    ||| '0' <= c <= '9'
    ||| c == '_'
    ||| c == '-'
}

/// Whether `s` consists of 3 to 50 username characters.
pub open spec fn matches_username_pattern(s: Seq<char>) -> bool {
    &&& 3 <= s.len() <= 50
    &&& forall|i: int| 0 <= i < s.len() ==> is_username_char(#[trigger] s[i])
}

/// The number of bytes that `s` takes in UTF-8.
pub open spec fn utf8_len(s: Seq<char>) -> nat {
    encode_utf8(s).len()
}

/// What is wrong with `s` as a username, or `None` if nothing is.
pub open spec fn username_problem(s: Seq<char>) -> Option<Seq<char>> {
    if s.len() == 0 {
        Some("Username cannot be empty"@)
    } else if utf8_len(s) < 3 {
        Some("Username must be at least 3 characters long"@)
    } else if utf8_len(s) > 50 {
        Some("Username must be at most 50 characters long"@)
    } else if !matches_username_pattern(s) {
        Some("Username must contain only alphanumeric characters, underscores, and hyphens"@)
    } else {
        None
    }
}

/// Whether `s` is acceptable as a username.
pub open spec fn is_valid_username(s: Seq<char>) -> bool {
    username_problem(s) is None
}

/// Whether `c` is a control character: `U+0000..=U+001F` or `U+007F..=U+009F`.
pub open spec fn is_control(c: char) -> bool {
    c <= '\u{1f}' || '\u{7f}' <= c <= '\u{9f}'
}

/// Whether `c` is one of the characters with which HTML markup is written.
pub open spec fn is_html_char(c: char) -> bool {
    c == '<' || c == '>' || c == '&'
}

/// Whether `c` is a control character other than tab, line feed and carriage return.
pub open spec fn is_forbidden_control(c: char) -> bool {
    is_control(c) && c != '\t' && c != '\n' && c != '\r'
}

/// What is wrong with `s` as a display name, or `None` if nothing is.
pub open spec fn display_name_problem(s: Seq<char>) -> Option<Seq<char>> {
    if s.len() == 0 {
        Some("Display name cannot be empty"@)
    } else if utf8_len(s) > 100 {
        Some("Display name must be at most 100 characters long"@)
    } else if exists|i: int| 0 <= i < s.len() && is_html_char(#[trigger] s[i]) {
        Some("Display name cannot contain HTML characters"@)
    } else if exists|i: int| 0 <= i < s.len() && is_forbidden_control(#[trigger] s[i]) {
        Some("Display name cannot contain control characters"@)
    } else {
        None
    }
}

/// Whether `s` is acceptable as a display name.
pub open spec fn is_valid_display_name(s: Seq<char>) -> bool {
    display_name_problem(s) is None
}

/// The validation failure with the given message.
pub open spec fn validation_failure(message: Seq<char>) -> AppErrorView {
    AppErrorView { code: ErrorCode::ValidationFailed, message, details: None }
}

/// Compiles `pattern` with `regex::Regex::new` and asks `Regex::is_match` whether `text`
/// matches it. The pattern is fixed to the username pattern, which is anchored at both ends
/// and admits 3 to 50 characters out of `a-z`, `A-Z`, `0-9`, `_` and `-`; the result says
/// whether `text` is such a string.
#[verifier::external_body]
fn username_pattern_is_match(pattern: &str, text: &str) -> (r: bool)
    requires
        pattern@ == "^[a-zA-Z0-9_-]{3,50}$"@,
    ensures
        r == matches_username_pattern(text@),
{
    regex::Regex::new(pattern).expect("Invalid username regex").is_match(text)
}

/// A string that matches the username pattern takes one byte per character.
pub proof fn lemma_username_pattern_is_ascii(s: Seq<char>)
    requires
        matches_username_pattern(s),
    ensures
        utf8_len(s) == s.len(),
{
    assert(is_ascii_chars(s)) by {
        assert forall|i: int| 0 <= i < s.len() implies '\0' <= #[trigger] s[i] <= '\u{7f}' by {}
    }
    is_ascii_chars_encode_utf8(s);
}

/// A username is valid exactly if it matches the username pattern.
pub proof fn lemma_valid_username_is_pattern(s: Seq<char>)
    ensures
        is_valid_username(s) <==> matches_username_pattern(s),
{
    if matches_username_pattern(s) {
        lemma_username_pattern_is_ascii(s);
    }
}

/// Checks the format and length of a username.
pub fn validate_username(username: &str) -> (r: Result<(), AppError>)
    ensures
        r is Ok <==> is_valid_username(username@),
        r matches Err(e) ==> username_problem(username@) == Some(e@.message) && e@
            == validation_failure(e@.message),
{
    if username.is_empty() {
        return Err(AppError::validation_failed("Username cannot be empty"));
    }
    let length = utf8_length(username);
    if length < 3 {
        return Err(AppError::validation_failed("Username must be at least 3 characters long"));
    }
    if length > 50 {
        return Err(AppError::validation_failed("Username must be at most 50 characters long"));
    }
    if !username_pattern_is_match("^[a-zA-Z0-9_-]{3,50}$", username) {
        return Err(
            AppError::validation_failed(
                "Username must contain only alphanumeric characters, underscores, and hyphens",
            ),
        );
    }
    Ok(())
}

/// Whether `c` is a control character.
pub fn char_is_control(c: char) -> (r: bool)
    ensures
        r == is_control(c),
{
    c <= '\u{1f}' || ('\u{7f}' <= c && c <= '\u{9f}')
}

/// Checks the length and the characters of a display name.
#[verifier::loop_isolation(false)]
pub fn validate_display_name(display_name: &str) -> (r: Result<(), AppError>)
    ensures
        r is Ok <==> is_valid_display_name(display_name@),
        r matches Err(e) ==> display_name_problem(display_name@) == Some(e@.message) && e@
            == validation_failure(e@.message),
{
    if display_name.is_empty() {
        return Err(AppError::validation_failed("Display name cannot be empty"));
    }
    if utf8_length(display_name) > 100 {
        return Err(
            AppError::validation_failed("Display name must be at most 100 characters long"),
        );
    }
    let chars = chars_of(display_name);
    let mut i: usize = 0;
    while i < chars.len()
        invariant
            i <= chars.len(),
            forall|k: int| 0 <= k < i ==> !is_html_char(#[trigger] chars@[k]),
        decreases chars.len() - i,
    {
        let c = chars[i];
        if c == '<' || c == '>' || c == '&' {
            return Err(AppError::validation_failed("Display name cannot contain HTML characters"));
        }
        i += 1;
    }
    let mut j: usize = 0;
    while j < chars.len()
        invariant
            j <= chars.len(),
            forall|k: int| 0 <= k < j ==> !is_forbidden_control(#[trigger] chars@[k]),
        decreases chars.len() - j,
    {
        let c = chars[j];
        if char_is_control(c) && c != '\t' && c != '\n' && c != '\r' {
            return Err(
                AppError::validation_failed("Display name cannot contain control characters"),
            );
        }
        j += 1;
    }
    Ok(())
}

/// A display name without its leading and trailing white space.
pub fn sanitize_display_name(display_name: &str) -> (r: String)
    ensures
        r@ == trim(display_name@),
{
    let chars = chars_of(display_name);
    let kept = trimmed(chars.as_slice());
    string_of(kept.as_slice())
}

/// `c` in lower case where it is an ASCII capital letter, and `c` itself otherwise.
pub open spec fn lowered(c: char) -> char {
    if 'A' <= c <= 'Z' {
        ((c as u8) + 32) as char
    } else {
        c
    }
}

/// `s` without the white space around it and with its ASCII capital letters in lower case.
pub open spec fn sanitized_username(s: Seq<char>) -> Seq<char> {
    Seq::new(trim(s).len(), |i: int| lowered(trim(s)[i]))
}

/// A username without the white space around it and in lower case.
pub fn sanitize_username(username: &str) -> (r: String)
    ensures
        r@ == sanitized_username(username@),
{
    let chars = chars_of(username);
    let kept = trimmed(chars.as_slice());
    let mut out: Vec<char> = Vec::new();
    let mut i: usize = 0;
    while i < kept.len()
        invariant
            i <= kept.len(),
            kept@ == trim(username@),
            out@ == sanitized_username(username@).take(i as int),
        decreases kept.len() - i,
    {
        let c = kept[i];
        let low = if 'A' <= c && c <= 'Z' {
            ((c as u8) + 32) as char
        } else {
            c
        };
        out.push(low);
        i += 1;
    }
    string_of(out.as_slice())
}

/// A username that has passed [`validate_username`].
#[derive(Debug)]
pub struct ValidatedUsername(String);

impl Clone for ValidatedUsername {
    fn clone(&self) -> (r: Self)
        ensures
            r@ == self@,
    {
        proof {
            use_type_invariant(self);
        }
        ValidatedUsername(self.0.clone())
    }
}

impl View for ValidatedUsername {
    type V = Seq<char>;

    closed spec fn view(&self) -> Seq<char> {
        self.0@
    }
}

impl ValidatedUsername {
    #[verifier::type_invariant]
    spec fn well_formed(self) -> bool {
        is_valid_username(self.0@)
    }

    /// Accepts `username` if it is valid, and says what is wrong with it otherwise.
    pub fn new(username: String) -> (r: Result<Self, AppError>)
        ensures
            r is Ok <==> is_valid_username(username@),
            r matches Ok(v) ==> v@ == username@,
            r matches Err(e) ==> username_problem(username@) == Some(e@.message) && e@
                == validation_failure(e@.message),
    {
        match validate_username(username.as_str()) {
            Ok(()) => Ok(ValidatedUsername(username)),
            Err(e) => Err(e),
        }
    }

    /// The username, which is valid.
    pub fn as_str(&self) -> (r: &str)
        ensures
            r@ == self@,
            is_valid_username(r@),
    {
        proof {
            use_type_invariant(self);
        }
        self.0.as_str()
    }

    /// The username, which is valid, as a string of its own.
    pub fn into_string(self) -> (r: String)
        ensures
            r@ == self@,
            is_valid_username(r@),
    {
        proof {
            use_type_invariant(&self);
        }
        self.0
    }

    /// The username as it is printed.
    pub fn to_display_string(&self) -> (r: String)
        ensures
            r@ == self@,
    {
        self.0.clone()
    }
}

/// A display name that has passed [`validate_display_name`].
#[derive(Debug)]
pub struct ValidatedDisplayName(String);

impl Clone for ValidatedDisplayName {
    fn clone(&self) -> (r: Self)
        ensures
            r@ == self@,
    {
        proof {
            use_type_invariant(self);
        }
        ValidatedDisplayName(self.0.clone())
    }
}

impl View for ValidatedDisplayName {
    type V = Seq<char>;

    closed spec fn view(&self) -> Seq<char> {
        self.0@
    }
}

impl ValidatedDisplayName {
    #[verifier::type_invariant]
    spec fn well_formed(self) -> bool {
        is_valid_display_name(self.0@)
    }

    /// Accepts `display_name` if it is valid, and says what is wrong with it otherwise.
    pub fn new(display_name: String) -> (r: Result<Self, AppError>)
        ensures
            r is Ok <==> is_valid_display_name(display_name@),
            r matches Ok(v) ==> v@ == display_name@,
            r matches Err(e) ==> display_name_problem(display_name@) == Some(e@.message) && e@
                == validation_failure(e@.message),
    {
        match validate_display_name(display_name.as_str()) {
            Ok(()) => Ok(ValidatedDisplayName(display_name)),
            Err(e) => Err(e),
        }
    }

    /// The display name, which is valid.
    pub fn as_str(&self) -> (r: &str)
        ensures
            r@ == self@,
            is_valid_display_name(r@),
    {
        proof {
            use_type_invariant(self);
        }
        self.0.as_str()
    }

    /// The display name, which is valid, as a string of its own.
    pub fn into_string(self) -> (r: String)
        ensures
            r@ == self@,
            is_valid_display_name(r@),
    {
        proof {
            use_type_invariant(&self);
        }
        self.0
    }

    /// The display name as it is printed.
    pub fn to_display_string(&self) -> (r: String)
        ensures
            r@ == self@,
    {
        self.0.clone()
    }
}

} // verus!
