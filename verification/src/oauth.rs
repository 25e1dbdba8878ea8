//! Parsing of the OAuth token-exchange response: the response body either
//! carries an access token, an error with an optional description, or an
//! unexpected shape. The one-shot HTTP call itself is the shell's; the
//! library receives the body text and decides the outcome.

use vstd::prelude::*;
use vstd::string::StringExecFns;

verus! {

/// The string fields a token-exchange response body can carry, as read by a
/// JSON parse of the body: `access_token`, `error` and `error_description`,
/// plus the parser's own message when the body is not a JSON document.
pub struct TokenFields {
    pub parse_error: Option<String>,
    pub access_token: Option<String>,
    pub error: Option<String>,
    pub error_description: Option<String>,
}

/// What a JSON parse of a token-exchange response body yields; a function of
/// the body text alone.
pub uninterp spec fn token_fields_of(body: Seq<char>) -> TokenFields;

/// Relies on serde_json::from_str::<Value>, Value::get and Value::as_str:
/// reads the string fields "access_token", "error" and "error_description"
/// of the JSON object in the body, if the body parses as JSON at all. The
/// result depends on the body text alone.
#[verifier::external_body]
fn parse_token_fields(body: &str) -> (r: TokenFields)
    ensures
        r == token_fields_of(body@),
{
    let field = |v: &serde_json::Value, k: &str| v.get(k).and_then(|x| x.as_str()).map(String::from);
    match serde_json::from_str::<serde_json::Value>(body) {
        Ok(v) => TokenFields {
            parse_error: None,
            access_token: field(&v, "access_token"),
            error: field(&v, "error"),
            error_description: field(&v, "error_description"),
        },
        Err(e) => TokenFields { parse_error: Some(e.to_string()), access_token: None, error: None, error_description: None },
    }
}

/// The token-exchange outcome for a response body whose fields are `f`: the
/// access token verbatim when one is present; otherwise the reported error,
/// described by `error_description` when given and by `error` itself
/// otherwise; otherwise a generic failure carrying the raw body.
pub open spec fn spec_token_result(f: TokenFields, body: Seq<char>) -> Result<
    Seq<char>,
    Seq<char>,
> {
    match f.parse_error {
        Some(p) => Err("Failed to parse response: "@ + p@),
        None => match f.access_token {
            Some(t) => Ok(t@),
            None => match f.error {
                Some(err) => Err(
                    "OAuth error: "@ + match f.error_description {
                        Some(d) => d@,
                        None => err@,
                    },
                ),
                None => Err("Unexpected response: "@ + body),
            },
        },
    }
}

/// A token-exchange result, seen as the character sequences it carries.
pub open spec fn result_view(r: Result<String, String>) -> Result<Seq<char>, Seq<char>> {
    match r {
        Ok(s) => Ok(s@),
        Err(e) => Err(e@),
    }
}

/// Decides the token-exchange outcome from the fields a parse of the body
/// yielded.
pub fn token_from_fields(fields: TokenFields, body: &str) -> (r: Result<String, String>)
    ensures
        result_view(r) == spec_token_result(fields, body@),
{
    match fields.parse_error {
        Some(p) => Err(String::from_str("Failed to parse response: ").concat(p.as_str())),
        None => match fields.access_token {
            Some(t) => Ok(t),
            None => match fields.error {
                Some(err) => {
                    let desc = match fields.error_description {
                        Some(d) => d,
                        None => err,
                    };
                    Err(String::from_str("OAuth error: ").concat(desc.as_str()))
                },
                None => Err(String::from_str("Unexpected response: ").concat(body)),
            },
        },
    }
}

/// Parses a token-exchange response body: the access token verbatim on
/// success, a descriptive failure otherwise.
pub fn parse_token_exchange_response(body: &str) -> (r: Result<String, String>)
    ensures
        result_view(r) == spec_token_result(token_fields_of(body@), body@),
{
    let fields = parse_token_fields(body);
    token_from_fields(fields, body)
}

} // verus!
