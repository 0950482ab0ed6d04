//! The headers that every response is given: protection against common attacks, and how
//! long the response may be kept by caches.

use vstd::prelude::*;
use vstd::string::StringExecFns;

use crate::text::{chars_of, optional_str, same_text, starts_with};

verus! {

/// Whether the page at `path` shows what belongs to one user, so that no cache may keep it.
pub open spec fn user_specific(path: Seq<char>) -> bool {
    path == "/edit"@ || "/display/username/"@.is_prefix_of(path)
}

/// Whether the page at `path` shows what belongs to one user.
pub fn is_user_specific_page(path: &str) -> (r: bool)
    ensures
        r == user_specific(path@),
{
    if same_text(path, "/edit") {
        return true;
    }
    let chars = chars_of(path);
    let prefix = chars_of("/display/username/");
    starts_with(chars.as_slice(), prefix.as_slice())
}

/// The value of the `Content-Security-Policy` header.
pub const CONTENT_SECURITY_POLICY: &'static str =
    "default-src 'self'; script-src 'self' 'unsafe-inline'; style-src 'self' 'unsafe-inline'; img-src 'self' data:; font-src 'self'; connect-src 'self'; frame-ancestors 'none'; base-uri 'self'; form-action 'self'";

/// The headers that protect every response, whatever it holds.
pub open spec fn protection_headers() -> Seq<(Seq<char>, Seq<char>)> {
    seq![
        ("X-Content-Type-Options"@, "nosniff"@),
        ("X-Frame-Options"@, "DENY"@),
        ("X-XSS-Protection"@, "1; mode=block"@),
        ("Referrer-Policy"@, "strict-origin-when-cross-origin"@),
        ("Permissions-Policy"@, "geolocation=(), microphone=(), camera=()"@),
        ("Content-Security-Policy"@, CONTENT_SECURITY_POLICY@),
    ]
}

/// Whether a response of the given content type is a static asset: a style sheet, a
/// script or an image.
pub open spec fn is_static_asset(content_type: Seq<char>) -> bool {
    ||| "text/css"@.is_prefix_of(content_type)
    ||| "application/javascript"@.is_prefix_of(content_type)
    ||| "image/"@.is_prefix_of(content_type)
}

/// The headers that say how long a response may be kept: a page of one user not at all,
/// any other page for five minutes, a static asset for a year, anything else as the
/// handler left it.
pub open spec fn caching_headers(content_type: Option<Seq<char>>, path: Seq<char>) -> Seq<
    (Seq<char>, Seq<char>),
> {
    match content_type {
        None => Seq::empty(),
        Some(content_type) => if "text/html"@.is_prefix_of(content_type) {
            if user_specific(path) {
                seq![
                    ("cache-control"@, "no-cache, no-store, must-revalidate"@),
                    ("pragma"@, "no-cache"@),
                    ("expires"@, "0"@),
                ]
            } else {
                seq![("cache-control"@, "public, max-age=300, must-revalidate"@)]
            }
        } else if is_static_asset(content_type) {
            seq![("cache-control"@, "public, max-age=31536000, immutable"@)]
        } else {
            Seq::empty()
        },
    }
}

/// The content of a list of headers.
pub open spec fn headers_view(headers: Seq<(String, String)>) -> Seq<(Seq<char>, Seq<char>)> {
    Seq::new(headers.len(), |i: int| (headers[i].0@, headers[i].1@))
}

/// One header.
fn header(name: &str, value: &str) -> (r: (String, String))
    ensures
        r.0@ == name@,
        r.1@ == value@,
{
    (String::from_str(name), String::from_str(value))
}

/// The headers to set on the response to a request for `path` whose content type, as far
/// as it is readable text, is `content_type`: the protection headers, then the caching
/// headers. Each replaces a header of the same name that the response already has.
pub fn security_headers_middleware(path: &str, content_type: Option<&str>) -> (r: Vec<
    (String, String),
>)
    ensures
        headers_view(r@) == protection_headers() + caching_headers(
            optional_str(content_type),
            path@,
        ),
{
    let mut headers: Vec<(String, String)> = Vec::new();
    headers.push(header("X-Content-Type-Options", "nosniff"));
    headers.push(header("X-Frame-Options", "DENY"));
    headers.push(header("X-XSS-Protection", "1; mode=block"));
    headers.push(header("Referrer-Policy", "strict-origin-when-cross-origin"));
    headers.push(header("Permissions-Policy", "geolocation=(), microphone=(), camera=()"));
    headers.push(header("Content-Security-Policy", CONTENT_SECURITY_POLICY));
    match content_type {
        Some(content_type) => {
            let chars = chars_of(content_type);
            if starts_with(chars.as_slice(), chars_of("text/html").as_slice()) {
                if is_user_specific_page(path) {
                    headers.push(header("cache-control", "no-cache, no-store, must-revalidate"));
                    headers.push(header("pragma", "no-cache"));
                    headers.push(header("expires", "0"));
                } else {
                    headers.push(header("cache-control", "public, max-age=300, must-revalidate"));
                }
            } else if starts_with(chars.as_slice(), chars_of("text/css").as_slice()) || starts_with(
                chars.as_slice(),
                chars_of("application/javascript").as_slice(),
            ) || starts_with(chars.as_slice(), chars_of("image/").as_slice()) {
                headers.push(header("cache-control", "public, max-age=31536000, immutable"));
            }
        },
        None => {},
    }
    headers
}

} // verus!
