//! The page that says whether a token passes validation, and why not if it does not.

use vstd::prelude::*;
use vstd::string::StringExecFns;

use crate::config::Environment;
use crate::middleware::jwt_auth::{
    algorithm_text, asks_as_named, jwt_config_available, Claims, JwtAlgorithm, JwtConfig,
    INTERNAL_SERVER_ERROR,
};
use crate::text::{chars_of, decimal_text, parts_view, push_decimal, split, split_chars, string_of};

verus! {

/// The page for a token that passed validation, part 1.
pub const TOKEN_VALID_PAGE_1: &'static str = r#"<!DOCTYPE html>
<html>
<head>
    <title>JWT Token Validation</title>
    <style>
        body { font-family: Arial, sans-serif; max-width: 800px; margin: 0 auto; padding: 20px; }
        .success { background-color: #d4edda; border: 1px solid #c3e6cb; color: #155724; padding: 15px; border-radius: 4px; }
        .token-info { background-color: #f8f9fa; padding: 15px; border-radius: 4px; margin-top: 20px; }
        .token-info pre { white-space: pre-wrap; word-break: break-all; }
    </style>
</head>
<body>
    <h1>JWT Token Validation</h1>
    <div class="success">✅ Token is valid!</div>
    <div class="token-info">
        <h2>Token Information</h2>
        <ul>
            <li><strong>Subject (Username):</strong> "#;

/// The page for a token that passed validation, part 2.
pub const TOKEN_VALID_PAGE_2: &'static str = r#"</li>
            <li><strong>Issued at:</strong> "#;

/// The page for a token that passed validation, part 3.
pub const TOKEN_VALID_PAGE_3: &'static str = r#"</li>
            <li><strong>Expires at:</strong> "#;

/// The page for a token that passed validation, part 4.
pub const TOKEN_VALID_PAGE_4: &'static str = r#"</li>
            <li><strong>Audience:</strong> "#;

/// The page for a token that passed validation, part 5.
pub const TOKEN_VALID_PAGE_5: &'static str = r#"</li>
            <li><strong>Issuer:</strong> "#;

/// The page for a token that passed validation, part 6.
pub const TOKEN_VALID_PAGE_6: &'static str = r#"</li>
        </ul>
        <h2>Raw Token</h2>
        <pre>"#;

/// The page for a token that passed validation, part 7.
pub const TOKEN_VALID_PAGE_7: &'static str = r#"</pre>
        <h2>Debug Info</h2>
        <pre>Token header type: "#;

/// The page for a token that passed validation, part 8.
pub const TOKEN_VALID_PAGE_8: &'static str = r#"
Token algorithm: "#;

/// The page for a token that passed validation, part 9.
pub const TOKEN_VALID_PAGE_9: &'static str = r#"</pre>
    </div>
</body>
</html>
                "#;
/// The page for a token that failed validation, part 1.
pub const TOKEN_INVALID_PAGE_1: &'static str = r#"<!DOCTYPE html>
<html>
<head>
    <title>JWT Token Validation</title>
    <style>
        body { font-family: Arial, sans-serif; max-width: 800px; margin: 0 auto; padding: 20px; }
        .error { background-color: #f8d7da; border: 1px solid #f5c6cb; color: #721c24; padding: 15px; border-radius: 4px; }
        .config { background-color: #f8f9fa; padding: 15px; border-radius: 4px; margin-top: 20px; }
        .token-info pre { white-space: pre-wrap; word-break: break-all; }
        .details { font-family: monospace; margin-top: 10px; padding: 10px; background: #f8f9fa; }
    </style>
</head>
<body>
    <h1>JWT Token Validation</h1>
    <div class="error">❌ Token validation failed: "#;

/// The page for a token that failed validation, part 2.
pub const TOKEN_INVALID_PAGE_2: &'static str = r#"</div>
    <div class="config">
        <h2>Validation Configuration</h2>
        <ul>
            <li><strong>Algorithm:</strong> "#;

/// The page for a token that failed validation, part 3.
pub const TOKEN_INVALID_PAGE_3: &'static str = r#"</li>
            <li><strong>Expected Audience:</strong> "#;

/// The page for a token that failed validation, part 4.
pub const TOKEN_INVALID_PAGE_4: &'static str = r#"</li>
            <li><strong>Expected Issuer:</strong> "#;

/// The page for a token that failed validation, part 5.
pub const TOKEN_INVALID_PAGE_5: &'static str = r#"</li>
        </ul>
        <h2>Token Details</h2>
        <div class="details">
            <p>Token Parts:</p>
            <ul>
                <li>Header: "#;

/// The page for a token that failed validation, part 6.
pub const TOKEN_INVALID_PAGE_6: &'static str = r#"</li>
                <li>Payload: "#;

/// The page for a token that failed validation, part 7.
pub const TOKEN_INVALID_PAGE_7: &'static str = r#"</li>
                <li>Signature: "#;

/// The page for a token that failed validation, part 8.
pub const TOKEN_INVALID_PAGE_8: &'static str = r#"</li>
            </ul>
        </div>
        <h2>Raw Token</h2>
        <pre>"#;

/// The page for a token that failed validation, part 9.
pub const TOKEN_INVALID_PAGE_9: &'static str = r#"</pre>
    </div>
</body>
</html>
                "#;
/// The seconds by which clocks may differ when a token is validated for this page.
pub const DEBUG_LEEWAY: u64 = 60;

/// The configuration with which this page validates a token: that of the environment, with
/// a leeway of one minute. Where there is none, the answer is an internal server error.
pub fn debug_validation_config(env: &Environment) -> (r: Result<JwtConfig, u16>)
    ensures
        r is Ok <==> jwt_config_available(env@),
        r matches Ok(config) ==> config.validation.leeway == DEBUG_LEEWAY && asks_as_named(
            config.validation,
            env@,
        ),
        r matches Err(status) ==> status == INTERNAL_SERVER_ERROR,
{
    match JwtConfig::from_env(env) {
        Ok(config) => {
            let mut config = config;
            config.validation.leeway = DEBUG_LEEWAY;
            Ok(config)
        },
        Err(_) => Err(INTERNAL_SERVER_ERROR),
    }
}

/// The name of an algorithm as it is printed.
pub fn algorithm_name(algorithm: JwtAlgorithm) -> (r: &'static str)
    ensures
        r@ == algorithm_text(algorithm),
{
    match algorithm {
        JwtAlgorithm::RS256 => "RS256",
        JwtAlgorithm::ES256 => "ES256",
    }
}

/// The part of `token` with the given index among those that dots separate, or the word
/// `invalid` where there is no such part.
pub open spec fn token_part(token: Seq<char>, index: int) -> Seq<char> {
    let parts = split(token, '.');
    if 0 <= index < parts.len() {
        parts[index]
    } else {
        "invalid"@
    }
}

/// The page for a token that passed validation: what it claims, the token itself, and the
/// type and algorithm that its header names.
pub open spec fn valid_page(
    claims: Claims,
    token: Seq<char>,
    header_type: Seq<char>,
    header_algorithm: Seq<char>,
) -> Seq<char> {
    TOKEN_VALID_PAGE_1@ + claims.sub@ + TOKEN_VALID_PAGE_2@ + decimal_text(claims.iat as nat)
        + TOKEN_VALID_PAGE_3@ + decimal_text(claims.exp as nat) + TOKEN_VALID_PAGE_4@ + claims.aud@
        + TOKEN_VALID_PAGE_5@ + claims.iss@ + TOKEN_VALID_PAGE_6@ + token + TOKEN_VALID_PAGE_7@
        + header_type + TOKEN_VALID_PAGE_8@ + header_algorithm + TOKEN_VALID_PAGE_9@
}

/// The page for a token that passed validation.
pub fn token_valid_page(
    claims: &Claims,
    token: &str,
    header_type: &str,
    header_algorithm: &str,
) -> (r: String)
    ensures
        r@ == valid_page(*claims, token@, header_type@, header_algorithm@),
{
    let mut out = String::from_str(TOKEN_VALID_PAGE_1);
    out.append(claims.sub.as_str());
    out.append(TOKEN_VALID_PAGE_2);
    push_decimal(&mut out, claims.iat as u64);
    out.append(TOKEN_VALID_PAGE_3);
    push_decimal(&mut out, claims.exp as u64);
    out.append(TOKEN_VALID_PAGE_4);
    out.append(claims.aud.as_str());
    out.append(TOKEN_VALID_PAGE_5);
    out.append(claims.iss.as_str());
    out.append(TOKEN_VALID_PAGE_6);
    out.append(token);
    out.append(TOKEN_VALID_PAGE_7);
    out.append(header_type);
    out.append(TOKEN_VALID_PAGE_8);
    out.append(header_algorithm);
    out.append(TOKEN_VALID_PAGE_9);
    out
}

/// The page for a token that failed validation: the failure, what was asked of the
/// token, the three parts of the token, and the token itself.
pub open spec fn invalid_page(
    failure: Seq<char>,
    algorithm: Seq<char>,
    audience: Seq<char>,
    issuer: Seq<char>,
    token: Seq<char>,
) -> Seq<char> {
    TOKEN_INVALID_PAGE_1@ + failure + TOKEN_INVALID_PAGE_2@ + algorithm + TOKEN_INVALID_PAGE_3@
        + audience + TOKEN_INVALID_PAGE_4@ + issuer + TOKEN_INVALID_PAGE_5@ + token_part(token, 0)
        + TOKEN_INVALID_PAGE_6@ + token_part(token, 1) + TOKEN_INVALID_PAGE_7@ + token_part(
        token,
        2,
    ) + TOKEN_INVALID_PAGE_8@ + token + TOKEN_INVALID_PAGE_9@
}

/// Appends to `out` the part of the token with the given index, or the word `invalid`.
fn push_token_part(out: &mut String, parts: &Vec<Vec<char>>, index: usize)
    ensures
        final(out)@ == old(out)@ + (if index < parts.len() {
            parts@[index as int]@
        } else {
            "invalid"@
        }),
{
    if index < parts.len() {
        let part = string_of(parts[index].as_slice());
        out.append(part.as_str());
    } else {
        out.append("invalid");
    }
}

/// The page for a token that failed validation.
pub fn token_invalid_page(
    failure: &str,
    algorithm: &str,
    audience: &str,
    issuer: &str,
    token: &str,
) -> (r: String)
    ensures
        r@ == invalid_page(failure@, algorithm@, audience@, issuer@, token@),
{
    let chars = chars_of(token);
    let parts = split_chars(chars.as_slice(), '.');
    let mut out = String::from_str(TOKEN_INVALID_PAGE_1);
    out.append(failure);
    out.append(TOKEN_INVALID_PAGE_2);
    out.append(algorithm);
    out.append(TOKEN_INVALID_PAGE_3);
    out.append(audience);
    out.append(TOKEN_INVALID_PAGE_4);
    out.append(issuer);
    out.append(TOKEN_INVALID_PAGE_5);
    push_token_part(&mut out, &parts, 0);
    out.append(TOKEN_INVALID_PAGE_6);
    push_token_part(&mut out, &parts, 1);
    out.append(TOKEN_INVALID_PAGE_7);
    push_token_part(&mut out, &parts, 2);
    out.append(TOKEN_INVALID_PAGE_8);
    out.append(token);
    out.append(TOKEN_INVALID_PAGE_9);
    out
}

/// What the validation of a token came to.
#[derive(Debug)]
pub enum TokenCheck {
    /// The token is good: its claims, and the type and the algorithm its header names.
    Valid { claims: Claims, header_type: Option<String>, header_algorithm: String },
    /// The token is not good, for the reason given.
    Invalid { failure: String },
}

/// The text of an optional string, empty where there is none.
pub open spec fn text_or_empty(s: Option<String>) -> Seq<char> {
    match s {
        Some(t) => t@,
        None => Seq::empty(),
    }
}

/// The page that reports on the validation of `token` under the requirements `config`.
pub open spec fn validation_page(config: JwtConfig, token: Seq<char>, check: TokenCheck) -> Seq<
    char,
> {
    match check {
        TokenCheck::Valid { claims, header_type, header_algorithm } => valid_page(
            claims,
            token,
            text_or_empty(header_type),
            header_algorithm@,
        ),
        TokenCheck::Invalid { failure } => invalid_page(
            failure@,
            algorithm_text(config.validation.algorithm),
            config.validation.audience@,
            config.validation.issuer@,
            token,
        ),
    }
}

/// The page that reports on the validation of `token` under the requirements `config`.
pub fn get_debug_validate_token(config: &JwtConfig, token: &str, check: &TokenCheck) -> (r: String)
    ensures
        r@ == validation_page(*config, token@, *check),
{
    match check {
        TokenCheck::Valid { claims, header_type, header_algorithm } => {
            let empty = String::new();
            let header_type = match header_type {
                Some(t) => t.as_str(),
                None => empty.as_str(),
            };
            token_valid_page(claims, token, header_type, header_algorithm.as_str())
        },
        TokenCheck::Invalid { failure } => token_invalid_page(
            failure.as_str(),
            algorithm_name(config.validation.algorithm),
            config.validation.audience.as_str(),
            config.validation.issuer.as_str(),
            token,
        ),
    }
}

} // verus!
