//! Bearer-token authentication: where a token is looked for, which one is taken, and how
//! the verifier is configured.

use vstd::prelude::*;
use vstd::string::StringExecFns;
use vstd::utf8::{decode_utf8, encode_utf8, valid_utf8};

use crate::config::{lookup, number_setting, parse_number_setting, value_or, var_or, Environment};
use crate::text::{
    chars_of, concatenated, copy_range, decimal_text, optional_str, optional_text, parts_view,
    push_decimal, same_text, split, split_chars, string_of, strip_prefix, stripped_prefix,
    text_of_utf8, texts, trim, trimmed, utf8_length,
};

verus! {

/// The claims a token makes: whom it speaks of, when it was issued and when it expires,
/// for whom it is meant and who issued it.
#[derive(Debug)]
pub struct Claims {
    pub sub: String,
    pub iat: usize,
    pub exp: usize,
    pub aud: String,
    pub iss: String,
}

impl Clone for Claims {
    fn clone(&self) -> (r: Self)
        ensures
            r.sub@ == self.sub@,
            r.iat == self.iat,
            r.exp == self.exp,
            r.aud@ == self.aud@,
            r.iss@ == self.iss@,
    {
        Claims {
            sub: self.sub.clone(),
            iat: self.iat,
            exp: self.exp,
            aud: self.aud.clone(),
            iss: self.iss.clone(),
        }
    }
}

/// The bytes that `input` stands for in base64 with the URL-safe alphabet and no padding,
/// or `None` where `input` is not such an encoding.
pub uninterp spec fn url_safe_no_pad_decoding(input: Seq<char>) -> Option<Seq<u8>>;

/// The value of the member `key` of the JSON object that `text` holds, where `text` is a
/// JSON object with such a member and the member is an integer that fits in 64 bits with
/// a sign; `None` otherwise.
pub uninterp spec fn json_signed_member(text: Seq<char>, key: Seq<char>) -> Option<i64>;

/// The value of the member `key` of the JSON object that `text` holds, where `text` is a
/// JSON object with such a member and the member is an integer that is not negative and
/// fits in 64 bits; `None` otherwise.
pub uninterp spec fn json_unsigned_member(text: Seq<char>, key: Seq<char>) -> Option<u64>;

/// The content of an optional byte vector.
pub open spec fn optional_bytes(v: Option<Vec<u8>>) -> Option<Seq<u8>> {
    match v {
        Some(b) => Some(b@),
        None => None,
    }
}

/// Decodes `input` with `base64`'s `URL_SAFE_NO_PAD` engine (`Engine::decode`). The result
/// depends on `input` alone; a failure to decode is `None`.
#[verifier::external_body]
fn decode_url_safe_no_pad(input: &str) -> (r: Option<Vec<u8>>)
    ensures
        optional_bytes(r) == url_safe_no_pad_decoding(input@),
{
    base64::Engine::decode(&base64::engine::general_purpose::URL_SAFE_NO_PAD, input).ok()
}

/// Parses `text` with `serde_json::from_str` into a `serde_json::Value`, looks up the
/// member `key` with `Value::get` and reads it with `Value::as_i64`. The result depends
/// on `text` and `key` alone; `None` stands for a failure at any of the three steps.
#[verifier::external_body]
fn read_json_signed_member(text: &str, key: &str) -> (r: Option<i64>)
    ensures
        r == json_signed_member(text@, key@),
{
    serde_json::from_str::<serde_json::Value>(text).ok()?.get(key)?.as_i64()
}

/// Parses `text` with `serde_json::from_str` into a `serde_json::Value`, looks up the
/// member `key` with `Value::get` and reads it with `Value::as_u64`. The result depends
/// on `text` and `key` alone; `None` stands for a failure at any of the three steps.
#[verifier::external_body]
pub(crate) fn read_json_unsigned_member(text: &str, key: &str) -> (r: Option<u64>)
    ensures
        r == json_unsigned_member(text@, key@),
{
    serde_json::from_str::<serde_json::Value>(text).ok()?.get(key)?.as_u64()
}

/// The payload of `token` as text, as far as it can be read without checking the
/// signature: the token has three parts and the second decodes to UTF-8 text.
pub open spec fn payload_text(token: Seq<char>) -> Option<Seq<char>> {
    let parts = split(token, '.');
    if parts.len() != 3 {
        None
    } else {
        match url_safe_no_pad_decoding(parts[1]) {
            Some(bytes) if valid_utf8(bytes) => Some(decode_utf8(bytes)),
            _ => None,
        }
    }
}

/// The expiry time that the payload of `token` states: the member `exp` of the JSON
/// object that the payload holds, where it is an integer.
pub open spec fn stated_expiry(token: Seq<char>) -> Option<i64> {
    match payload_text(token) {
        Some(text) => json_signed_member(text, "exp"@),
        None => None,
    }
}

/// Whether a token with the given number of parts and the given stated expiry is worth
/// trying at the time `now`: it has three parts and has not stated an expiry that is past.
pub open spec fn is_usable(parts: nat, expiry: Option<i64>, now: i64) -> bool {
    parts == 3 && match expiry {
        Some(exp) => exp > now,
        None => true,
    }
}

/// Whether `token` is worth trying at the time `now`.
pub open spec fn is_usable_token(token: Seq<char>, now: i64) -> bool {
    is_usable(split(token, '.').len(), stated_expiry(token), now)
}

/// Whether a token with the given number of parts and the given stated expiry is worth
/// trying at the time `now`.
pub fn usable(parts: usize, expiry: Option<i64>, now: i64) -> (r: bool)
    ensures
        r == is_usable(parts as nat, expiry, now),
{
    if parts != 3 {
        return false;
    }
    match expiry {
        Some(exp) => exp > now,
        None => true,
    }
}

/// The number of parts of `token` and its payload as text.
pub fn read_payload(token: &str) -> (r: (usize, Option<String>))
    ensures
        r.0 == split(token@, '.').len(),
        optional_text(r.1) == payload_text(token@),
{
    let chars = chars_of(token);
    let parts = split_chars(chars.as_slice(), '.');
    if parts.len() != 3 {
        return (parts.len(), None);
    }
    let payload = string_of(parts[1].as_slice());
    let text = match decode_url_safe_no_pad(payload.as_str()) {
        Some(bytes) => text_of_utf8(bytes),
        None => None,
    };
    (3, text)
}

/// The expiry time that the payload of `token` states, and the number of parts of `token`.
pub fn read_stated_expiry(token: &str) -> (r: (usize, Option<i64>))
    ensures
        r.0 == split(token@, '.').len(),
        r.1 == stated_expiry(token@),
{
    let (parts, payload) = read_payload(token);
    let expiry = match payload {
        Some(text) => read_json_signed_member(text.as_str(), "exp"),
        None => None,
    };
    (parts, expiry)
}

/// Whether `token` is worth trying at the time `now`.
pub fn is_valid_token(token: &str, now: i64) -> (r: bool)
    ensures
        r == is_usable_token(token@, now),
{
    let (parts, expiry) = read_stated_expiry(token);
    usable(parts, expiry, now)
}

/// The token that one part of a `Cookie` header carries: what follows `jwt_token=` once
/// the white space around the part is gone.
pub open spec fn cookie_token(part: Seq<char>) -> Option<Seq<char>> {
    strip_prefix(trim(part), "jwt_token="@)
}

/// The tokens that the parts `parts` of a `Cookie` header carry, in their order.
pub open spec fn cookie_tokens(parts: Seq<Seq<char>>) -> Seq<Seq<char>>
    decreases parts.len(),
{
    if parts.len() == 0 {
        Seq::empty()
    } else {
        cookie_tokens(parts.drop_last()) + match cookie_token(parts.last()) {
            Some(token) => seq![token],
            None => Seq::empty(),
        }
    }
}

/// The tokens that a request offers: those of the `jwt_token` cookies in the order of the
/// `Cookie` header, then the bearer token of the `Authorization` header.
pub open spec fn offered_tokens(
    cookie_header: Option<Seq<char>>,
    authorization_header: Option<Seq<char>>,
) -> Seq<Seq<char>> {
    (match cookie_header {
        Some(header) => cookie_tokens(split(header, ';')),
        None => Seq::empty(),
    }) + (match authorization_header {
        Some(header) => match strip_prefix(header, "Bearer "@) {
            Some(token) => seq![token],
            None => Seq::empty(),
        },
        None => Seq::empty(),
    })
}

/// The tokens that a request with the given headers offers.
pub fn token_candidates(cookie_header: Option<&str>, authorization_header: Option<&str>) -> (r:
    Vec<String>)
    ensures
        texts(r@) == offered_tokens(optional_str(cookie_header), optional_str(authorization_header)),
{
    let mut tokens: Vec<String> = Vec::new();
    let prefix = chars_of("jwt_token=");
    match cookie_header {
        Some(header) => {
            let chars = chars_of(header);
            let parts = split_chars(chars.as_slice(), ';');
            let ghost all = parts_view(parts@);
            let mut i: usize = 0;
            while i < parts.len()
                invariant
                    i <= parts.len(),
                    all == parts_view(parts@),
                    prefix@ == "jwt_token="@,
                    texts(tokens@) == cookie_tokens(all.take(i as int)),
                decreases parts.len() - i,
            {
                proof {
                    assert(all.take(i + 1).drop_last() == all.take(i as int));
                }
                let part = trimmed(parts[i].as_slice());
                match stripped_prefix(part.as_slice(), prefix.as_slice()) {
                    Some(token) => {
                        tokens.push(string_of(token.as_slice()));
                    },
                    None => {},
                }
                i += 1;
            }
            assert(all.take(parts.len() as int) == all);
        },
        None => {},
    }
    match authorization_header {
        Some(header) => {
            let chars = chars_of(header);
            let bearer = chars_of("Bearer ");
            match stripped_prefix(chars.as_slice(), bearer.as_slice()) {
                Some(token) => {
                    tokens.push(string_of(token.as_slice()));
                },
                None => {},
            }
        },
        None => {},
    }
    tokens
}

/// The first position at or after `from` at which `tokens` holds a token that is worth
/// trying at the time `now`, if there is one.
pub open spec fn first_usable_from(tokens: Seq<Seq<char>>, now: i64, from: int) -> Option<int>
    decreases tokens.len() - from,
{
    if from >= tokens.len() {
        None
    } else if is_usable_token(tokens[from], now) {
        Some(from)
    } else {
        first_usable_from(tokens, now, from + 1)
    }
}

/// The token to take from `tokens` at the time `now`: the first that is worth trying;
/// the first of all where none is; none where there is none.
pub open spec fn chosen_token(tokens: Seq<Seq<char>>, now: i64) -> Option<Seq<char>> {
    match first_usable_from(tokens, now, 0) {
        Some(i) => Some(tokens[i]),
        None => if tokens.len() > 0 {
            Some(tokens[0])
        } else {
            None
        },
    }
}

/// What `first_usable_from` finds is a usable token with none before it; where it finds
/// nothing, no token from `from` on is usable.
pub proof fn lemma_first_usable_from(tokens: Seq<Seq<char>>, now: i64, from: int)
    requires
        0 <= from,
    ensures
        match first_usable_from(tokens, now, from) {
            Some(i) => from <= i < tokens.len() && is_usable_token(tokens[i], now) && forall|
                k: int,
            |
                from <= k < i ==> !is_usable_token(#[trigger] tokens[k], now),
            None => forall|k: int|
                from <= k < tokens.len() ==> !is_usable_token(#[trigger] tokens[k], now),
        },
    decreases tokens.len() - from,
{
    if from < tokens.len() && !is_usable_token(tokens[from], now) {
        lemma_first_usable_from(tokens, now, from + 1);
    }
}

/// A token is chosen unless none is offered; the chosen token is one of those offered;
/// and it is worth trying if any of them is.
pub proof fn lemma_chosen_token(tokens: Seq<Seq<char>>, now: i64)
    ensures
        chosen_token(tokens, now) is None <==> tokens.len() == 0,
        chosen_token(tokens, now) matches Some(token) ==> tokens.contains(token),
        (exists|k: int| 0 <= k < tokens.len() && is_usable_token(#[trigger] tokens[k], now))
            ==> (chosen_token(tokens, now) matches Some(token) && is_usable_token(token, now)),
{
    lemma_first_usable_from(tokens, now, 0);
}

/// The token to take from `tokens` at the time `now`.
pub fn choose_token(tokens: &Vec<String>, now: i64) -> (r: Option<String>)
    ensures
        optional_text(r) == chosen_token(texts(tokens@), now),
{
    let mut i: usize = 0;
    while i < tokens.len()
        invariant
            i <= tokens.len(),
            first_usable_from(texts(tokens@), now, 0) == first_usable_from(
                texts(tokens@),
                now,
                i as int,
            ),
        decreases tokens.len() - i,
    {
        if is_valid_token(tokens[i].as_str(), now) {
            return Some(tokens[i].clone());
        }
        i += 1;
    }
    if tokens.len() > 0 {
        Some(tokens[0].clone())
    } else {
        None
    }
}

/// The token with which a request with the given headers is to be authenticated at the
/// time `now`, in seconds since the Unix epoch.
pub fn extract_jwt_token(
    cookie_header: Option<&str>,
    authorization_header: Option<&str>,
    now: i64,
) -> (r: Option<String>)
    ensures
        optional_text(r) == chosen_token(
            offered_tokens(optional_str(cookie_header), optional_str(authorization_header)),
            now,
        ),
{
    let tokens = token_candidates(cookie_header, authorization_header);
    choose_token(&tokens, now)
}

/// Whether `s` stands between two double quotes or between two single quotes.
pub open spec fn is_quoted(s: Seq<char>) -> bool {
    s.len() >= 2 && ((s[0] == '"' && s.last() == '"') || (s[0] == '\'' && s.last() == '\''))
}

/// `s` without the pair of quotes around it, if there is one.
pub open spec fn unquoted(s: Seq<char>) -> Seq<char> {
    if is_quoted(s) {
        s.subrange(1, s.len() - 1)
    } else {
        s
    }
}

/// `s` from position `at` on, with a line feed in place of each backslash that is followed
/// by the letter `n`, read from left to right.
pub open spec fn unescaped_from(s: Seq<char>, at: int) -> Seq<char>
    decreases s.len() - at,
{
    if at >= s.len() {
        Seq::empty()
    } else if at + 1 < s.len() && s[at] == '\\' && s[at + 1] == 'n' {
        seq!['\n'] + unescaped_from(s, at + 2)
    } else {
        seq![s[at]] + unescaped_from(s, at + 1)
    }
}

/// The public key as it is meant, from the value as it was written into the environment:
/// without quotes around it, and with line feeds where the value spells them `\n`.
pub open spec fn normalized_key(raw: Seq<char>) -> Seq<char> {
    unescaped_from(unquoted(raw), 0)
}

/// The public key as it is meant, from the value as it was written into the environment.
pub fn normalize_public_key(raw: &str) -> (r: String)
    ensures
        r@ == normalized_key(raw@),
{
    let chars = chars_of(raw);
    let n = chars.len();
    let inner = if n >= 2 && ((chars[0] == '"' && chars[n - 1] == '"') || (chars[0] == '\''
        && chars[n - 1] == '\'')) {
        copy_range(chars.as_slice(), 1, n - 1)
    } else {
        chars
    };
    let mut out: Vec<char> = Vec::new();
    let mut at: usize = 0;
    while at < inner.len()
        invariant
            at <= inner.len(),
            out@ + unescaped_from(inner@, at as int) == unescaped_from(inner@, 0),
        decreases inner.len() - at,
    {
        if inner[at] == '\\' && at + 1 < inner.len() && inner[at + 1] == 'n' {
            out.push('\n');
            at += 2;
        } else {
            out.push(inner[at]);
            at += 1;
        }
    }
    string_of(out.as_slice())
}

/// The signature algorithms that tokens may be signed with.
#[derive(Debug, Clone, Copy, PartialEq, Eq, Structural)]
pub enum JwtAlgorithm {
    RS256,
    ES256,
}

/// The algorithm that `name` names, if it is one that is supported.
pub open spec fn algorithm_named(name: Seq<char>) -> Option<JwtAlgorithm> {
    if name == "RS256"@ {
        Some(JwtAlgorithm::RS256)
    } else if name == "ES256"@ {
        Some(JwtAlgorithm::ES256)
    } else {
        None
    }
}

/// The algorithm that `name` names, if it is one that is supported.
pub fn parse_algorithm(name: &str) -> (r: Option<JwtAlgorithm>)
    ensures
        r == algorithm_named(name@),
{
    if same_text(name, "RS256") {
        Some(JwtAlgorithm::RS256)
    } else if same_text(name, "ES256") {
        Some(JwtAlgorithm::ES256)
    } else {
        None
    }
}

/// What a token must satisfy besides carrying a good signature.
#[derive(Debug)]
pub struct JwtValidation {
    /// The algorithm the signature must be made with.
    pub algorithm: JwtAlgorithm,
    /// The audience the token must be meant for.
    pub audience: String,
    /// The issuer the token must come from.
    pub issuer: String,
    /// The seconds by which the clocks of issuer and verifier may differ.
    pub leeway: u64,
}

/// The key type of `jsonwebtoken` with which signatures are checked, carried as an opaque value.
#[verifier::external_type_specification]
#[verifier::external_body]
pub struct ExDecodingKey(jsonwebtoken::DecodingKey);

/// The error type of `jsonwebtoken`, carried as an opaque value.
#[verifier::external_type_specification]
#[verifier::external_body]
pub struct ExTokenError(jsonwebtoken::errors::Error);

/// Whether `jsonwebtoken` accepts the PEM text `pem` where an RSA key is asked for. It
/// accepts an RSA public key, and more than that: an RSA private key too, a certificate,
/// and under the label `RSA PUBLIC KEY` whatever is well encoded. That a text is accepted
/// does not say that it is a key with which a signature can be checked.
pub uninterp spec fn accepted_as_rsa_pem(pem: Seq<char>) -> bool;

/// The number of bytes up to which a key is read. The reader descends once for each
/// element of the key that is nested in another, and takes about 7 KiB of stack for
/// each in a build without optimisation. The 1024 bytes of a PEM text encode 768 bytes
/// at most, in which no more than 234 elements are nested, since all but the inmost
/// hundred take four bytes each: with that the reader stays within the 2 MiB that a
/// thread has by default. An RSA public key of 4096 bits takes 800 bytes.
pub const MAX_PUBLIC_KEY_BYTES: usize = 1024;

/// Whether the key `pem` is short enough to be read.
pub open spec fn key_fits(pem: Seq<char>) -> bool {
    encode_utf8(pem).len() <= MAX_PUBLIC_KEY_BYTES
}

/// What is said of a key that is too long to be read.
pub const KEY_TOO_LONG: &'static str =
    "Failed to parse JWT public key: the key is longer than 1024 bytes";

/// Hands the PEM text `pem` to `jsonwebtoken`'s `DecodingKey::from_rsa_pem`. Whether the
/// text is accepted depends on `pem` alone; nothing else is said of it. Only a text of
/// bounded length is handed over, in which no more elements can be nested than the
/// reader can descend.
#[verifier::external_body]
fn decoding_key_from_rsa_pem(pem: &str) -> (r: Result<
    jsonwebtoken::DecodingKey,
    jsonwebtoken::errors::Error,
>)
    requires
        key_fits(pem@),
    ensures
        r is Ok <==> accepted_as_rsa_pem(pem@),
{
    jsonwebtoken::DecodingKey::from_rsa_pem(pem.as_bytes())
}

/// The verifier's configuration: the key and what else is asked of a token.
pub struct JwtConfig {
    pub public_key: jsonwebtoken::DecodingKey,
    pub validation: JwtValidation,
}

/// Whether `validation` asks for the algorithm, the audience and the issuer that `vars`
/// names: `RS256` and those of the test setup where it names none.
pub open spec fn asks_as_named(validation: JwtValidation, vars: Seq<(Seq<char>, Seq<char>)>) -> bool {
    &&& Some(validation.algorithm) == algorithm_named(value_or(vars, "JWT_ALGORITHM"@, "RS256"@))
    &&& validation.audience@ == value_or(vars, "JWT_AUDIENCE"@, "micro-frontend-service"@)
    &&& validation.issuer@ == value_or(vars, "JWT_ISSUER"@, "test-auth-service"@)
}

/// Whether `validation` asks of a token what `vars` says it should: what is named there,
/// with the leeway that is given there, or one minute.
pub open spec fn meets_settings(validation: JwtValidation, vars: Seq<(Seq<char>, Seq<char>)>) -> bool {
    &&& asks_as_named(validation, vars)
    &&& validation.leeway == number_setting(lookup(vars, "JWT_CLOCK_SKEW_SECONDS"@), u64::MAX, 60)
}

/// Whether a configuration can be drawn from `vars`: the key is set, is short enough to
/// be read and is accepted where an RSA key is asked for, and the algorithm, `RS256`
/// where none is named, is a supported one.
pub open spec fn jwt_config_available(vars: Seq<(Seq<char>, Seq<char>)>) -> bool {
    &&& lookup(vars, "JWT_PUBLIC_KEY"@) matches Some(raw)
    &&& key_fits(normalized_key(raw))
    &&& accepted_as_rsa_pem(normalized_key(raw))
    &&& algorithm_named(value_or(vars, "JWT_ALGORITHM"@, "RS256"@)) is Some
}

impl JwtConfig {
    /// The configuration that `env` describes. The key is required; the algorithm, the
    /// audience, the issuer and the leeway have defaults. A key that is too long to be
    /// read is turned down as one that cannot be parsed.
    pub fn from_env(env: &Environment) -> (r: Result<Self, String>)
        ensures
            r is Ok <==> jwt_config_available(env@),
            r matches Ok(config) ==> meets_settings(config.validation, env@),
            r matches Err(e) ==> match lookup(env@, "JWT_PUBLIC_KEY"@) {
                None => e@ == "JWT_PUBLIC_KEY environment variable not set"@,
                Some(raw) => if !key_fits(normalized_key(raw)) {
                    e@ == KEY_TOO_LONG@
                } else if accepted_as_rsa_pem(normalized_key(raw)) {
                    e@ == "Unsupported JWT algorithm: "@ + value_or(
                        env@,
                        "JWT_ALGORITHM"@,
                        "RS256"@,
                    )
                } else {
                    "Failed to parse JWT public key: "@.is_prefix_of(e@)
                },
            },
    {
        let raw = match env.var("JWT_PUBLIC_KEY") {
            Some(raw) => raw,
            None => {
                return Err(String::from_str("JWT_PUBLIC_KEY environment variable not set"));
            },
        };
        let public_key_pem = normalize_public_key(raw);
        let algorithm_name = var_or(env, "JWT_ALGORITHM", "RS256");
        let audience = var_or(env, "JWT_AUDIENCE", "micro-frontend-service");
        let issuer = var_or(env, "JWT_ISSUER", "test-auth-service");
        if utf8_length(public_key_pem.as_str()) > MAX_PUBLIC_KEY_BYTES {
            return Err(String::from_str(KEY_TOO_LONG));
        }
        let public_key = match decoding_key_from_rsa_pem(public_key_pem.as_str()) {
            Ok(key) => key,
            Err(e) => {
                let cause = e.to_string();
                return Err(concatenated("Failed to parse JWT public key: ", cause.as_str()));
            },
        };
        let algorithm = match parse_algorithm(algorithm_name) {
            Some(algorithm) => algorithm,
            None => {
                return Err(concatenated("Unsupported JWT algorithm: ", algorithm_name));
            },
        };
        let leeway = parse_number_setting(env.var("JWT_CLOCK_SKEW_SECONDS"), u64::MAX, 60);
        Ok(
            JwtConfig {
                public_key,
                validation: JwtValidation {
                    algorithm,
                    audience: audience.to_owned(),
                    issuer: issuer.to_owned(),
                    leeway,
                },
            },
        )
    }

    /// The configuration as it may be printed: the key is not shown.
    pub fn to_debug_string(&self) -> (r: String)
        ensures
            r@ == debug_text(self.validation),
    {
        let mut out = String::from_str("JwtConfig { public_key: \"<redacted>\", ");
        out.append("validation: JwtValidation { algorithm: ");
        match self.validation.algorithm {
            JwtAlgorithm::RS256 => out.append("RS256"),
            JwtAlgorithm::ES256 => out.append("ES256"),
        }
        out.append(", audience: \"");
        out.append(self.validation.audience.as_str());
        out.append("\", issuer: \"");
        out.append(self.validation.issuer.as_str());
        out.append("\", leeway: ");
        push_decimal(&mut out, self.validation.leeway);
        out.append(" } }");
        out
    }
}

/// The name of an algorithm as it is printed.
pub open spec fn algorithm_text(algorithm: JwtAlgorithm) -> Seq<char> {
    match algorithm {
        JwtAlgorithm::RS256 => "RS256"@,
        JwtAlgorithm::ES256 => "ES256"@,
    }
}

/// A configuration with the requirements `validation` as it may be printed: the
/// requirements in full, and a placeholder for the key.
pub open spec fn debug_text(validation: JwtValidation) -> Seq<char> {
    "JwtConfig { public_key: \"<redacted>\", "@ + "validation: JwtValidation { algorithm: "@
        + algorithm_text(validation.algorithm) + ", audience: \""@ + validation.audience@
        + "\", issuer: \""@ + validation.issuer@ + "\", leeway: "@ + decimal_text(
        validation.leeway as nat,
    ) + " } }"@
}

/// The status that is answered to a request without a token, or with one that does not
/// pass validation.
pub const UNAUTHORIZED: u16 = 401;

/// The status that is answered where the verifier cannot be configured.
pub const INTERNAL_SERVER_ERROR: u16 = 500;

/// What there is to validate: the token that was taken from the request, and the
/// configuration to validate it with.
pub struct TokenToValidate {
    pub token: String,
    pub config: JwtConfig,
}

/// Prepares the authentication of a request with the given headers at the time `now`, in
/// seconds since the Unix epoch: a request without a token is answered with 401, and one
/// that comes while the verifier cannot be configured with 500. Otherwise the token is
/// handed on for validation, and [`authentication_outcome`] says what becomes of the
/// request then.
pub fn jwt_auth_middleware(
    cookie_header: Option<&str>,
    authorization_header: Option<&str>,
    env: &Environment,
    now: i64,
) -> (r: Result<TokenToValidate, u16>)
    ensures
        match chosen_token(
            offered_tokens(optional_str(cookie_header), optional_str(authorization_header)),
            now,
        ) {
            None => r matches Err(status) && status == UNAUTHORIZED,
            Some(token) => if jwt_config_available(env@) {
                r matches Ok(found) && found.token@ == token && meets_settings(
                    found.config.validation,
                    env@,
                )
            } else {
                r matches Err(status) && status == INTERNAL_SERVER_ERROR
            },
        },
{
    let token = match extract_jwt_token(cookie_header, authorization_header, now) {
        Some(token) => token,
        None => {
            return Err(UNAUTHORIZED);
        },
    };
    match JwtConfig::from_env(env) {
        Ok(config) => Ok(TokenToValidate { token, config }),
        Err(_) => Err(INTERNAL_SERVER_ERROR),
    }
}

/// What becomes of a request once its token has been put to validation: with a token
/// that passes, the request goes on with the claims of the token; with one that fails,
/// for whatever reason, it is answered with 401, and the reason is kept from the client.
pub open spec fn outcome_of_validation(validated: Result<Claims, String>) -> Result<Claims, u16> {
    match validated {
        Ok(claims) => Ok(claims),
        Err(_) => Err(UNAUTHORIZED),
    }
}

/// What becomes of a request once its token has been put to validation.
pub fn authentication_outcome(validated: Result<Claims, String>) -> (r: Result<Claims, u16>)
    ensures
        r == outcome_of_validation(validated),
{
    match validated {
        Ok(claims) => Ok(claims),
        Err(_) => Err(UNAUTHORIZED),
    }
}

} // verus!
