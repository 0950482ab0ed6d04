//! The page that hands a browser a token to test with.

use vstd::prelude::*;
use vstd::string::StringExecFns;

use crate::middleware::jwt_auth::{
    json_unsigned_member, payload_text, read_json_unsigned_member, read_payload, Claims,
};
use crate::text::{decimal_text, push_decimal, utf8_length};
use crate::validation::utf8_len;

verus! {

/// The page that confirms a token was set, part 1.
pub const TOKEN_SET_PAGE_1: &'static str = r#"<!DOCTYPE html>
<html lang="en">
<head>
    <meta charset="UTF-8">
    <meta name="viewport" content="width=device-width, initial-scale=1.0">
    <title>JWT Token Set Successfully</title>
    <style>
        body {
            font-family: -apple-system, BlinkMacSystemFont, 'Segoe UI', Roboto, sans-serif;
            max-width: 800px;
            margin: 50px auto;
            padding: 20px;
            background: #f5f5f5;
            color: #333;
            line-height: 1.6;
        }
        .container {
            background: white;
            padding: 30px;
            border-radius: 8px;
            box-shadow: 0 2px 8px rgba(0,0,0,0.1);
        }
        .success {
            color: #106330;
            background: #d5f4e6;
            padding: 15px;
            border-radius: 4px;
            margin-bottom: 20px;
            border: 1px solid #106330;
        }
        .btn {
            background: #1a6ea5;
            color: white;
            padding: 10px 20px;
            text-decoration: none;
            border-radius: 4px;
            display: inline-block;
            margin: 10px 5px 0 0;
        }
        .btn:hover {
            background: #155a87;
        }
    </style>
</head>
<body>
    <div class="container">
        <h1>🔑 JWT Token Set Successfully</h1>
        <div class="success">
            ✅ JWT token has been set for user: <strong>"#;

/// The page that confirms a token was set, part 2.
pub const TOKEN_SET_PAGE_2: &'static str = r#"</strong>
        </div>
        <p>The JWT token has been stored in your browser cookies and is ready to use.</p>
        <div>
            <a href="/edit" class="btn">Test Protected Page (/edit)</a>
            <a href="/api/username" class="btn">Test API Endpoint</a>
            <a href="/display" class="btn">View Display Page</a>
        </div>
        <p><small>Token will expire in "#;

/// The page that confirms a token was set, part 3.
pub const TOKEN_SET_PAGE_3: &'static str = r#". Token length: "#;

/// The page that confirms a token was set, part 4.
pub const TOKEN_SET_PAGE_4: &'static str = r#" characters.</small></p>
    </div>
</body>
</html>"#;
/// The seconds for which a token made for testing is good.
pub const DEBUG_TOKEN_LIFETIME: usize = 3600;

/// The seconds a cookie is kept where its token has already expired.
pub const EXPIRED_TOKEN_COOKIE_AGE: usize = 60;

/// The seconds for which the cookie of a token is kept: until the token expires, and one
/// minute where it already has.
pub open spec fn max_age(expiration_time: usize, now: usize) -> usize {
    if expiration_time > now {
        (expiration_time - now) as usize
    } else {
        EXPIRED_TOKEN_COOKIE_AGE
    }
}

/// The seconds for which the cookie of a token is kept.
pub fn cookie_max_age(expiration_time: usize, now: usize) -> (r: usize)
    ensures
        r == max_age(expiration_time, now),
{
    if expiration_time > now {
        expiration_time - now
    } else {
        EXPIRED_TOKEN_COOKIE_AGE
    }
}

/// A number of seconds in words: minutes and seconds, or seconds alone under a minute.
pub open spec fn expiration_words(seconds: usize) -> Seq<char> {
    if seconds / 60 > 0 {
        decimal_text((seconds / 60) as nat) + " minutes "@ + decimal_text((seconds % 60) as nat)
            + " seconds"@
    } else {
        decimal_text((seconds % 60) as nat) + " seconds"@
    }
}

/// A number of seconds in words.
pub fn expiration_text(seconds: usize) -> (r: String)
    ensures
        r@ == expiration_words(seconds),
{
    let minutes = seconds / 60;
    let rest = seconds % 60;
    let mut out = String::new();
    if minutes > 0 {
        push_decimal(&mut out, minutes as u64);
        out.append(" minutes ");
    }
    push_decimal(&mut out, rest as u64);
    out.append(" seconds");
    out
}

/// The cookie that carries `token` for `max_age` seconds. Scripts may read it.
pub open spec fn cookie_text(token: Seq<char>, max_age: usize) -> Seq<char> {
    "jwt_token="@ + token + "; Path=/; SameSite=Lax; Max-Age="@ + decimal_text(max_age as nat)
        + "; HttpOnly=false"@
}

/// The cookie that carries `token` for `max_age` seconds.
pub fn token_cookie(token: &str, max_age: usize) -> (r: String)
    ensures
        r@ == cookie_text(token@, max_age),
{
    let mut out = String::from_str("jwt_token=");
    out.append(token);
    out.append("; Path=/; SameSite=Lax; Max-Age=");
    push_decimal(&mut out, max_age as u64);
    out.append("; HttpOnly=false");
    out
}

/// The page that confirms that a token was set for `username`.
pub open spec fn page_text(username: Seq<char>, token_length: usize, expiration: Seq<char>) -> Seq<
    char,
> {
    TOKEN_SET_PAGE_1@ + username + TOKEN_SET_PAGE_2@ + expiration + TOKEN_SET_PAGE_3@
        + decimal_text(token_length as nat) + TOKEN_SET_PAGE_4@
}

/// The page that confirms that a token was set for `username`.
pub fn token_set_page(username: &str, token_length: usize, expiration: &str) -> (r: String)
    ensures
        r@ == page_text(username@, token_length, expiration@),
{
    let mut out = String::from_str(TOKEN_SET_PAGE_1);
    out.append(username);
    out.append(TOKEN_SET_PAGE_2);
    out.append(expiration);
    out.append(TOKEN_SET_PAGE_3);
    push_decimal(&mut out, token_length as u64);
    out.append(TOKEN_SET_PAGE_4);
    out
}

/// The expiry time that the payload of `token` states, where it states one that is not
/// negative.
pub open spec fn stated_expiration(token: Seq<char>) -> Option<u64> {
    match payload_text(token) {
        Some(text) => json_unsigned_member(text, "exp"@),
        None => None,
    }
}

/// The status with which a token is turned down whose expiry cannot be read.
pub const BAD_REQUEST: u16 = 400;

/// The expiry time that the payload of `token` states, read without checking the signature.
pub fn extract_token_expiration(token: &str) -> (r: Result<usize, u16>)
    ensures
        r == match stated_expiration(token@) {
            Some(exp) => Ok::<usize, u16>(exp as usize),
            None => Err::<usize, u16>(BAD_REQUEST),
        },
{
    let (_, payload) = read_payload(token);
    let text = match payload {
        Some(text) => text,
        None => {
            return Err(BAD_REQUEST);
        },
    };
    match read_json_unsigned_member(text.as_str(), "exp") {
        Some(exp) => Ok(exp as usize),
        None => Err(BAD_REQUEST),
    }
}

/// The claims of a token made for testing on behalf of `username` at the time `now`: good
/// for one hour, for this service, from the test issuer.
pub fn debug_claims(username: &str, now: usize) -> (r: Claims)
    requires
        now + DEBUG_TOKEN_LIFETIME <= usize::MAX,
    ensures
        r.sub@ == username@,
        r.iat == now,
        r.exp == now + DEBUG_TOKEN_LIFETIME,
        r.aud@ == "micro-frontend-service"@,
        r.iss@ == "test-auth-service"@,
{
    Claims {
        sub: username.to_owned(),
        iat: now,
        exp: now + DEBUG_TOKEN_LIFETIME,
        aud: String::from_str("micro-frontend-service"),
        iss: String::from_str("test-auth-service"),
    }
}

/// The token that the page is to set.
#[derive(Debug)]
pub enum DebugToken {
    /// A token that the request brought along.
    Provided(String),
    /// A token that was made for the request, with the time at which it expires.
    Generated(String, usize),
}

impl DebugToken {
    /// The token itself.
    pub open spec fn text(self) -> Seq<char> {
        match self {
            DebugToken::Provided(token) => token@,
            DebugToken::Generated(token, _) => token@,
        }
    }

    /// The time at which the token expires: for one that was brought along, what its
    /// payload states, and an hour from `now` where it states nothing.
    pub open spec fn expiration_time(self, now: usize) -> usize {
        match self {
            DebugToken::Provided(token) => match stated_expiration(token@) {
                Some(exp) => exp as usize,
                None => (now + DEBUG_TOKEN_LIFETIME) as usize,
            },
            DebugToken::Generated(_, expiration_time) => expiration_time,
        }
    }
}

/// What is sent back: the cookie to set and the page to show.
#[derive(Debug)]
pub struct TokenSetResponse {
    pub cookie: String,
    pub html: String,
}

/// The answer that sets `token` for `username` at the time `now`, in seconds since the
/// Unix epoch: a cookie that lasts as long as the token, and a page that says so.
pub fn get_debug_set_token(username: &str, token: DebugToken, now: usize) -> (r: TokenSetResponse)
    requires
        now + DEBUG_TOKEN_LIFETIME <= usize::MAX,
    ensures
        r.cookie@ == cookie_text(token.text(), max_age(token.expiration_time(now), now)),
        r.html@ == page_text(
            username@,
            utf8_len(token.text()) as usize,
            expiration_words(max_age(token.expiration_time(now), now)),
        ),
{
    let (token, expiration_time) = match token {
        DebugToken::Provided(token) => {
            let expiration_time = match extract_token_expiration(token.as_str()) {
                Ok(exp) => exp,
                Err(_) => now + DEBUG_TOKEN_LIFETIME,
            };
            (token, expiration_time)
        },
        DebugToken::Generated(token, expiration_time) => (token, expiration_time),
    };
    let max_age = cookie_max_age(expiration_time, now);
    let words = expiration_text(max_age);
    let html = token_set_page(username, utf8_length(token.as_str()), words.as_str());
    let cookie = token_cookie(token.as_str(), max_age);
    TokenSetResponse { cookie, html }
}

} // verus!
