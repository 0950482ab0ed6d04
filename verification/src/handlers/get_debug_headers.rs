//! The report on the headers of a request, for looking into what a client sends.

use vstd::prelude::*;

use crate::text::{
    chars_of, contains_chars, first_index, first_index_from, has_substring, optional_text,
    same_text,
};

verus! {

/// What a request was found to hold.
#[derive(Debug)]
pub struct DebugHeadersReport {
    /// The headers whose values are text, each name once, with the value it had last.
    pub headers: Vec<(String, String)>,
    pub method: String,
    pub uri: String,
    /// The value of the `authorization` header, if it is text.
    pub auth_header: Option<String>,
    /// The value of the `cookie` header, if it is text.
    pub cookies: Option<String>,
    /// Whether the cookies hold a token.
    pub has_jwt_cookie: bool,
    /// Whether the cookies hold a token that scripts put there.
    pub has_jwt_js_cookie: bool,
}

/// The content of a list of headers as they came in: the name, and the value where it is text.
pub open spec fn incoming_view(headers: Seq<(String, Option<String>)>) -> Seq<
    (Seq<char>, Option<Seq<char>>),
> {
    Seq::new(headers.len(), |i: int| (headers[i].0@, optional_text(headers[i].1)))
}

/// The content of a list of headers with text for values.
pub open spec fn headers_view(headers: Seq<(String, String)>) -> Seq<(Seq<char>, Seq<char>)> {
    Seq::new(headers.len(), |i: int| (headers[i].0@, headers[i].1@))
}

/// The names of `headers`, in order.
pub open spec fn names_of(headers: Seq<(Seq<char>, Seq<char>)>) -> Seq<Seq<char>> {
    Seq::new(headers.len(), |i: int| headers[i].0)
}

/// The names of the incoming headers `headers`, in order.
pub open spec fn incoming_names(headers: Seq<(Seq<char>, Option<Seq<char>>)>) -> Seq<Seq<char>> {
    Seq::new(headers.len(), |i: int| headers[i].0)
}

/// `headers` with the value `value` for `name`: in place of the value it had, or at the
/// end where it had none.
pub open spec fn with_header(
    headers: Seq<(Seq<char>, Seq<char>)>,
    name: Seq<char>,
    value: Seq<char>,
) -> Seq<(Seq<char>, Seq<char>)> {
    match first_index(names_of(headers), name) {
        Some(i) => headers.update(i, (name, value)),
        None => headers.push((name, value)),
    }
}

/// The headers of `incoming` whose values are text, each name once in the order of its
/// first such value, with the value it had last.
pub open spec fn readable_headers(incoming: Seq<(Seq<char>, Option<Seq<char>>)>) -> Seq<
    (Seq<char>, Seq<char>),
>
    decreases incoming.len(),
{
    if incoming.len() == 0 {
        Seq::empty()
    } else {
        match incoming.last().1 {
            Some(value) => with_header(
                readable_headers(incoming.drop_last()),
                incoming.last().0,
                value,
            ),
            None => readable_headers(incoming.drop_last()),
        }
    }
}

/// The value of the first header named `name` in `incoming`, if there is such a header
/// and its value is text.
pub open spec fn first_value(incoming: Seq<(Seq<char>, Option<Seq<char>>)>, name: Seq<char>) -> Option<
    Seq<char>,
> {
    match first_index(incoming_names(incoming), name) {
        Some(i) => incoming[i].1,
        None => None,
    }
}

/// Whether the cookies `cookies` hold the cookie whose name and equals sign are `marker`.
pub open spec fn has_cookie(cookies: Option<Seq<char>>, marker: Seq<char>) -> bool {
    match cookies {
        Some(text) => has_substring(text, marker),
        None => false,
    }
}

/// The position of the first header named `name` in `headers`, if there is one.
fn position(headers: &Vec<(String, String)>, name: &str) -> (r: Option<usize>)
    ensures
        match r {
            Some(i) => first_index(names_of(headers_view(headers@)), name@) == Some(i as int) && i
                < headers.len() && headers@[i as int].0@ == name@,
            None => first_index(names_of(headers_view(headers@)), name@) is None,
        },
{
    let ghost names = names_of(headers_view(headers@));
    let mut i: usize = 0;
    while i < headers.len()
        invariant
            i <= headers.len(),
            names == names_of(headers_view(headers@)),
            first_index(names, name@) == first_index_from(names, name@, i as int),
        decreases headers.len() - i,
    {
        if same_text(headers[i].0.as_str(), name) {
            return Some(i);
        }
        i += 1;
    }
    None
}

/// The value of the first header named `name` in `incoming`, if it is text.
pub fn first_header_value(incoming: &Vec<(String, Option<String>)>, name: &str) -> (r: Option<
    String,
>)
    ensures
        optional_text(r) == first_value(incoming_view(incoming@), name@),
{
    let ghost names = incoming_names(incoming_view(incoming@));
    let mut i: usize = 0;
    while i < incoming.len()
        invariant
            i <= incoming.len(),
            names == incoming_names(incoming_view(incoming@)),
            first_index(names, name@) == first_index_from(names, name@, i as int),
        decreases incoming.len() - i,
    {
        if same_text(incoming[i].0.as_str(), name) {
            return match &incoming[i].1 {
                Some(value) => Some(value.clone()),
                None => None,
            };
        }
        i += 1;
    }
    None
}

/// Whether `cookies` hold the cookie whose name and equals sign are `marker`.
pub fn cookies_hold(cookies: &Option<String>, marker: &str) -> (r: bool)
    ensures
        r == has_cookie(optional_text(*cookies), marker@),
{
    match cookies {
        Some(text) => contains_chars(chars_of(text.as_str()).as_slice(), chars_of(marker).as_slice()),
        None => false,
    }
}

/// Reports on a request with the given headers, method and address.
pub fn get_debug_headers(incoming: &Vec<(String, Option<String>)>, method: &str, uri: &str) -> (r:
    DebugHeadersReport)
    ensures
        headers_view(r.headers@) == readable_headers(incoming_view(incoming@)),
        r.method@ == method@,
        r.uri@ == uri@,
        optional_text(r.auth_header) == first_value(incoming_view(incoming@), "authorization"@),
        optional_text(r.cookies) == first_value(incoming_view(incoming@), "cookie"@),
        r.has_jwt_cookie == has_cookie(optional_text(r.cookies), "jwt_token="@),
        r.has_jwt_js_cookie == has_cookie(optional_text(r.cookies), "jwt_token_js="@),
{
    let ghost all = incoming_view(incoming@);
    let mut headers: Vec<(String, String)> = Vec::new();
    let mut i: usize = 0;
    while i < incoming.len()
        invariant
            i <= incoming.len(),
            all == incoming_view(incoming@),
            headers_view(headers@) == readable_headers(all.take(i as int)),
        decreases incoming.len() - i,
    {
        proof {
            assert(all.take(i + 1).drop_last() =~= all.take(i as int));
        }
        match &incoming[i].1 {
            Some(value) => {
                let name = incoming[i].0.clone();
                match position(&headers, name.as_str()) {
                    Some(at) => {
                        headers.set(at, (name, value.clone()));
                    },
                    None => {
                        headers.push((name, value.clone()));
                    },
                }
            },
            None => {},
        }
        i += 1;
    }
    assert(all.take(incoming.len() as int) =~= all);
    let auth_header = first_header_value(incoming, "authorization");
    let cookies = first_header_value(incoming, "cookie");
    let has_jwt_cookie = cookies_hold(&cookies, "jwt_token=");
    let has_jwt_js_cookie = cookies_hold(&cookies, "jwt_token_js=");
    DebugHeadersReport {
        headers,
        method: method.to_owned(),
        uri: uri.to_owned(),
        auth_header,
        cookies,
        has_jwt_cookie,
        has_jwt_js_cookie,
    }
}

} // verus!
