//! Protocol of the cloud token service: session login, token exchange for a
//! site and device serial, and scraping of the token out of the HTML reply.

use vstd::prelude::*;

use crate::error::EnphaseError;
use crate::request::{join, pair, Body, BodyView, Method, Request, RequestView};
use crate::text::{
    contains_seq, encode_spaces, first_match, lemma_first_match, lowercase_of, occurs_at,
    plus_for_space, split_once, split_once_seq, to_lowercase, trim, trimmed,
};

verus! {

/// Production address of the cloud token service.
pub const DEFAULT_ENTREZ_URL: &'static str = "https://entrez.enphaseenergy.com";

/// Environment variable that holds the account name.
pub const USERNAME_VAR: &'static str = "ENTREZ_USERNAME";

/// Environment variable that holds the account password.
pub const PASSWORD_VAR: &'static str = "ENTREZ_PASSWORD";

/// Attribute that marks the element holding the token.
pub const TOKEN_MARKER: &'static str = "id=\"JWTToken\"";

/// End of the opening tag that follows the marker.
pub const TAG_END: &'static str = ">";

/// Closing tag after the token text.
pub const TOKEN_END: &'static str = "</textarea>";

/// Diagnostic of a reply from which no token could be scraped.
pub const TOKEN_MISSING: &'static str = "Failed to extract token from response";

/// Diagnostic of an unset account-name variable.
pub const USERNAME_UNSET: &'static str = "ENTREZ_USERNAME environment variable not set";

/// Diagnostic of an unset password variable.
pub const PASSWORD_UNSET: &'static str = "ENTREZ_PASSWORD environment variable not set";

/// Wire value of the `uncommissioned` field: commissioned devices send `off`.
pub open spec fn spec_uncommissioned(commissioned: bool) -> Seq<char> {
    if commissioned {
        "off"@
    } else {
        "on"@
    }
}

/// Site name as the token service expects it: lower case, spaces as `+`.
pub open spec fn spec_normalized_site(site_name: Seq<char>) -> Seq<char> {
    plus_for_space(lowercase_of(site_name))
}

/// The text between the end of the marked opening tag and the closing tag.
pub open spec fn token_text(body: Seq<char>) -> Option<Seq<char>> {
    match split_once_seq(body, TOKEN_MARKER@) {
        None => None,
        Some((_, rest)) => match split_once_seq(rest, TAG_END@) {
            None => None,
            Some((_, start)) => match split_once_seq(start, TOKEN_END@) {
                None => None,
                Some((inner, _)) => Some(inner),
            },
        },
    }
}

/// The token that a reply body carries: the trimmed text of the marked
/// element, when the markers are all there and that text is not empty.
pub open spec fn scraped_token(body: Seq<char>) -> Option<Seq<char>> {
    match token_text(body) {
        Some(inner) => if trimmed(inner).len() > 0 {
            Some(trimmed(inner))
        } else {
            None
        },
        None => None,
    }
}

/// A reply body in which the token marker does not occur carries no token:
/// `extract_token` fails on it with an invalid-response error.
pub proof fn lemma_no_marker_no_token(body: Seq<char>)
    requires
        !contains_seq(body, TOKEN_MARKER@),
    ensures
        scraped_token(body) is None,
{
    lemma_first_match(body, TOKEN_MARKER@, 0);
    if let Some(i) = first_match(body, TOKEN_MARKER@, 0) {
        assert(occurs_at(body, TOKEN_MARKER@, i));
    }
}

/// The login request: a form post of the credentials to `{base}/login`.
pub fn login_request(base_url: &str, username: &str, password: &str) -> (r: Request)
    ensures
        r@ == (RequestView {
            method: Method::Post,
            url: base_url@ + "/login"@,
            headers: seq![],
            body: BodyView::Form(
                seq![
                    ("username"@, username@),
                    ("password"@, password@),
                    ("authFlow"@, "entrezSession"@),
                ],
            ),
        }),
{
    let fields = vec![
        pair("username", username),
        pair("password", password),
        pair("authFlow", "entrezSession"),
    ];
    let r = Request {
        method: Method::Post,
        url: join(base_url, "/login"),
        headers: Vec::new(),
        body: Body::Form(fields),
    };
    assert(r.headers.deep_view() =~= seq![]);
    assert(fields.deep_view() =~= seq![
        ("username"@, username@),
        ("password"@, password@),
        ("authFlow"@, "entrezSession"@),
    ]);
    r
}

/// Wire value of the `uncommissioned` form field.
pub fn uncommissioned_field(commissioned: bool) -> (r: &'static str)
    ensures
        r@ == spec_uncommissioned(commissioned),
{
    if commissioned {
        "off"
    } else {
        "on"
    }
}

/// Lower-cases a site name and writes its spaces as `+`.
pub fn normalize_site_name(site_name: &str) -> (r: String)
    ensures
        r@ == spec_normalized_site(site_name@),
{
    let lower = to_lowercase(site_name);
    encode_spaces(lower.as_str())
}

/// The token-exchange request: a form post to `{base}/entrez_tokens`.
pub fn token_request(base_url: &str, site_name: &str, serial_number: &str, commissioned: bool) -> (r: Request)
    ensures
        r@ == (RequestView {
            method: Method::Post,
            url: base_url@ + "/entrez_tokens"@,
            headers: seq![],
            body: BodyView::Form(
                seq![
                    ("uncommissioned"@, spec_uncommissioned(commissioned)),
                    ("Site"@, spec_normalized_site(site_name@)),
                    ("serialNum"@, serial_number@),
                ],
            ),
        }),
{
    let site = normalize_site_name(site_name);
    let fields = vec![
        pair("uncommissioned", uncommissioned_field(commissioned)),
        pair("Site", site.as_str()),
        pair("serialNum", serial_number),
    ];
    let r = Request {
        method: Method::Post,
        url: join(base_url, "/entrez_tokens"),
        headers: Vec::new(),
        body: Body::Form(fields),
    };
    assert(r.headers.deep_view() =~= seq![]);
    assert(fields.deep_view() =~= seq![
        ("uncommissioned"@, spec_uncommissioned(commissioned)),
        ("Site"@, spec_normalized_site(site_name@)),
        ("serialNum"@, serial_number@),
    ]);
    r
}

/// Scrapes the token out of the token service's HTML reply.
pub fn extract_token(body: &str) -> (r: Result<String, EnphaseError>)
    ensures
        scraped_token(body@) matches Some(t) ==> (r matches Ok(s) && s@ == t),
        scraped_token(body@) is None ==> (r matches Err(EnphaseError::InvalidResponse(m))
            && m@ == TOKEN_MISSING@),
{
    if let Some((_, rest)) = split_once(body, TOKEN_MARKER) {
        if let Some((_, start)) = split_once(rest, TAG_END) {
            if let Some((inner, _)) = split_once(start, TOKEN_END) {
                let token = trim(inner);
                if !token.is_empty() {
                    return Ok(token.to_owned());
                }
            }
        }
    }
    Err(EnphaseError::InvalidResponse(TOKEN_MISSING.to_owned()))
}

/// Account credentials from the values of the two environment variables,
/// or a configuration error naming the first one that is unset.
pub fn credentials_from_env(username: Option<String>, password: Option<String>) -> (r: Result<
    (String, String),
    EnphaseError,
>)
    ensures
        username is None ==> (r matches Err(EnphaseError::ConfigurationError(m))
            && m@ == USERNAME_UNSET@),
        username is Some && password is None ==> (r matches Err(
            EnphaseError::ConfigurationError(m),
        ) && m@ == PASSWORD_UNSET@),
        username is Some && password is Some ==> (r matches Ok((u, p)) && u@ == username->0@
            && p@ == password->0@),
{
    match username {
        None => Err(EnphaseError::ConfigurationError(USERNAME_UNSET.to_owned())),
        Some(u) => match password {
            None => Err(EnphaseError::ConfigurationError(PASSWORD_UNSET.to_owned())),
            Some(p) => Ok((u, p)),
        },
    }
}

} // verus!
