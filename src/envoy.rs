//! Protocol of the local gateway: bearer-token check and power-mode control.

use vstd::prelude::*;
use vstd::string::StringExecFns;

use crate::error::EnphaseError;
use crate::models::PowerState;
use crate::request::{join, pair, Body, BodyView, Method, Request, RequestView};
use crate::text::{contains, contains_seq, decimal, push_decimal, trim, trimmed};

verus! {

/// Reply text of the gateway when it accepts a token.
pub const VALID_TOKEN: &'static str = "Valid token";

/// Diagnostic of a rejected token when the gateway sent no body.
pub const AUTH_FAILED: &'static str = "Invalid token or authentication failed";

/// Prefix of the diagnostic of a rejected token, before the reply text.
pub const JWT_CHECK_FAILED: &'static str = "JWT check failed: ";

/// Prefix of the diagnostic of a refused power change, before the status.
pub const SET_POWER_FAILED: &'static str = "Failed to set power state: HTTP ";

/// Content type that the gateway firmware expects on power changes.
pub const POWER_CONTENT_TYPE: &'static str = "application/x-www-form-urlencoded; charset=UTF-8";

/// Accepted types of a power-status read.
pub const POWER_ACCEPT: &'static str = "application/json, text/javascript, */*; q=0.01";

/// Diagnostic of a rejected token, from the gateway's reply body.
pub open spec fn auth_failure_message(body: Seq<char>) -> Seq<char> {
    if body.len() == 0 {
        AUTH_FAILED@
    } else {
        JWT_CHECK_FAILED@ + trimmed(body)
    }
}

/// Body of a power change: `{"length":1,"arr":[V]}` with the state's level.
pub open spec fn spec_power_payload(state: PowerState) -> Seq<char> {
    "{\"length\":1,\"arr\":["@ + decimal(state.spec_payload_value() as nat) + "]}"@
}

/// Address of a device's power mode on the gateway.
pub open spec fn spec_power_url(base_url: Seq<char>, serial: Seq<char>) -> Seq<char> {
    base_url + "/ivp/mod/"@ + serial + "/mode/power"@
}

/// Base address of a gateway: HTTPS to the given host.
pub fn gateway_base_url(host: &str) -> (r: String)
    ensures
        r@ == "https://"@ + host@,
{
    join("https://", host)
}

/// The token check: a GET of `{base}/auth/check_jwt` with the bearer token.
pub fn auth_check_request(base_url: &str, token: &str) -> (r: Request)
    ensures
        r@ == (RequestView {
            method: Method::Get,
            url: base_url@ + "/auth/check_jwt"@,
            headers: seq![("Authorization"@, "Bearer "@ + token@)],
            body: BodyView::Empty,
        }),
{
    let bearer = join("Bearer ", token);
    let headers = vec![pair("Authorization", bearer.as_str())];
    let r = Request {
        method: Method::Get,
        url: join(base_url, "/auth/check_jwt"),
        headers,
        body: Body::Empty,
    };
    assert(headers.deep_view() =~= seq![("Authorization"@, "Bearer "@ + token@)]);
    r
}

/// Outcome of the token check: accepted only on status 200 with a body that
/// contains `Valid token`.
pub fn auth_outcome(status: u16, body: &str) -> (r: Result<(), EnphaseError>)
    ensures
        r is Ok <==> status == 200 && contains_seq(body@, VALID_TOKEN@),
        r is Err ==> (r matches Err(EnphaseError::AuthenticationFailed(m)) && m@
            == auth_failure_message(body@)),
{
    if status == 200 && contains(body, VALID_TOKEN) {
        return Ok(());
    }
    if body.is_empty() {
        Err(EnphaseError::AuthenticationFailed(AUTH_FAILED.to_owned()))
    } else {
        Err(EnphaseError::AuthenticationFailed(JWT_CHECK_FAILED.to_owned().concat(trim(body))))
    }
}

/// Address of a device's power mode: `{base}/ivp/mod/{serial}/mode/power`.
pub fn power_url(base_url: &str, serial: &str) -> (r: String)
    ensures
        r@ == spec_power_url(base_url@, serial@),
{
    let mut url = join(base_url, "/ivp/mod/");
    url.append(serial);
    url.append("/mode/power");
    url
}

/// The JSON body of a power change.
pub fn power_payload(state: PowerState) -> (r: String)
    ensures
        r@ == spec_power_payload(state),
{
    let mut payload = "{\"length\":1,\"arr\":[".to_owned();
    push_decimal(&mut payload, state.payload_value() as u16);
    payload.append("]}");
    payload
}

/// The power change: a PUT of the JSON level with the form content type that
/// the firmware requires.
pub fn set_power_request(base_url: &str, serial: &str, state: PowerState) -> (r: Request)
    ensures
        r@ == (RequestView {
            method: Method::Put,
            url: spec_power_url(base_url@, serial@),
            headers: seq![("Content-Type"@, POWER_CONTENT_TYPE@)],
            body: BodyView::Text(spec_power_payload(state)),
        }),
{
    let headers = vec![pair("Content-Type", POWER_CONTENT_TYPE)];
    let r = Request {
        method: Method::Put,
        url: power_url(base_url, serial),
        headers,
        body: Body::Text(power_payload(state)),
    };
    assert(headers.deep_view() =~= seq![("Content-Type"@, POWER_CONTENT_TYPE@)]);
    r
}

/// Outcome of a power change: accepted only on status 204; any other status
/// is an invalid response whose message names it.
pub fn set_power_outcome(status: u16) -> (r: Result<(), EnphaseError>)
    ensures
        r is Ok <==> status == 204,
        r is Err ==> (r matches Err(EnphaseError::InvalidResponse(m)) && m@ == SET_POWER_FAILED@
            + decimal(status as nat)),
{
    if status == 204 {
        return Ok(());
    }
    let mut message = SET_POWER_FAILED.to_owned();
    push_decimal(&mut message, status);
    Err(EnphaseError::InvalidResponse(message))
}

/// The power-status read: a GET of the device's power mode, asking for JSON.
pub fn get_power_request(base_url: &str, serial: &str) -> (r: Request)
    ensures
        r@ == (RequestView {
            method: Method::Get,
            url: spec_power_url(base_url@, serial@),
            headers: seq![("Accept"@, POWER_ACCEPT@)],
            body: BodyView::Empty,
        }),
{
    let headers = vec![pair("Accept", POWER_ACCEPT)];
    let r = Request {
        method: Method::Get,
        url: power_url(base_url, serial),
        headers,
        body: Body::Empty,
    };
    assert(headers.deep_view() =~= seq![("Accept"@, POWER_ACCEPT@)]);
    r
}

} // verus!
