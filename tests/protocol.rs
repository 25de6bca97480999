use enphase_api::entrez::{
    credentials_from_env, extract_token, login_request, normalize_site_name, token_request,
    uncommissioned_field, DEFAULT_ENTREZ_URL,
};
use enphase_api::envoy::{
    auth_check_request, auth_outcome, gateway_base_url, get_power_request, power_payload,
    power_url, set_power_outcome, set_power_request,
};
use enphase_api::text::{contains, encode_spaces, split_once};
use enphase_api::{Body, EnphaseError, Method, PowerState, PowerStatusResponse, Request};

fn form_fields(r: &Request) -> Vec<(String, String)> {
    match &r.body {
        Body::Form(fields) => fields.clone(),
        other => panic!("expected a form body, got {:?}", other),
    }
}

fn pairs(items: &[(&str, &str)]) -> Vec<(String, String)> {
    items.iter().map(|(k, v)| (k.to_string(), v.to_string())).collect()
}

#[test]
fn payload_value_is_inverted_level() {
    assert_eq!(PowerState::On.payload_value(), 0);
    assert_eq!(PowerState::Off.payload_value(), 1);
}

#[test]
fn power_status_reads_as_negation() {
    let on = PowerStatusResponse { power_forced_off: false };
    let off = PowerStatusResponse { power_forced_off: true };
    assert!(on.is_powered_on());
    assert!(!off.is_powered_on());
    assert_eq!(on.power_state(), PowerState::On);
    assert_eq!(off.power_state(), PowerState::Off);
}

#[test]
fn payload_level_reads_back_as_same_state() {
    for state in [PowerState::On, PowerState::Off] {
        let reported = PowerStatusResponse { power_forced_off: state.payload_value() == 1 };
        assert_eq!(reported.power_state(), state);
    }
}

#[test]
fn uncommissioned_field_is_inverted() {
    assert_eq!(uncommissioned_field(true), "off");
    assert_eq!(uncommissioned_field(false), "on");
}

#[test]
fn site_name_is_normalized() {
    assert_eq!(normalize_site_name("My Site"), "my+site");
    assert_eq!(normalize_site_name("Test Site"), "test+site");
    assert_eq!(normalize_site_name(""), "");
    assert_eq!(normalize_site_name("A  B"), "a++b");
}

#[test]
fn spaces_are_encoded_and_nothing_else() {
    assert_eq!(encode_spaces("a b c"), "a+b+c");
    assert_eq!(encode_spaces("Été  x"), "Été++x");
    assert_eq!(encode_spaces("none"), "none");
}

#[test]
fn token_is_extracted() {
    let body = r#"<html><body><textarea id="JWTToken">abc123</textarea></body></html>"#;
    assert_eq!(extract_token(body).unwrap(), "abc123");
}

#[test]
fn token_is_trimmed() {
    let body = "<textarea rows=\"4\" id=\"JWTToken\" readonly>\n   eyJ.abc.def \t\n</textarea>";
    assert_eq!(extract_token(body).unwrap(), "eyJ.abc.def");
}

#[test]
fn token_without_marker_is_invalid_response() {
    let body = "<html><body><textarea id=\"Other\">abc123</textarea></body></html>";
    match extract_token(body) {
        Err(EnphaseError::InvalidResponse(m)) => {
            assert_eq!(m, "Failed to extract token from response")
        }
        other => panic!("unexpected {:?}", other),
    }
}

#[test]
fn token_without_closing_tag_is_invalid_response() {
    let body = "<textarea id=\"JWTToken\">abc123";
    assert!(matches!(extract_token(body), Err(EnphaseError::InvalidResponse(_))));
}

#[test]
fn token_without_tag_end_is_invalid_response() {
    let body = "<textarea id=\"JWTToken\"";
    assert!(matches!(extract_token(body), Err(EnphaseError::InvalidResponse(_))));
}

#[test]
fn blank_token_is_invalid_response() {
    let body = "<textarea id=\"JWTToken\">  \n </textarea>";
    assert!(matches!(extract_token(body), Err(EnphaseError::InvalidResponse(_))));
    assert!(matches!(extract_token(""), Err(EnphaseError::InvalidResponse(_))));
}

#[test]
fn token_uses_first_marker_and_first_closing_tag() {
    let body = "x id=\"JWTToken\" a>one</textarea> id=\"JWTToken\">two</textarea>";
    assert_eq!(extract_token(body).unwrap(), "one");
}

#[test]
fn login_request_is_form_post() {
    let r = login_request("https://cloud.test", "user@example.com", "pw");
    assert_eq!(r.method, Method::Post);
    assert_eq!(r.url, "https://cloud.test/login");
    assert!(r.headers.is_empty());
    assert_eq!(
        form_fields(&r),
        pairs(&[
            ("username", "user@example.com"),
            ("password", "pw"),
            ("authFlow", "entrezSession"),
        ])
    );
}

#[test]
fn token_request_is_form_post() {
    let r = token_request(DEFAULT_ENTREZ_URL, "My Site", "121212121212", true);
    assert_eq!(r.method, Method::Post);
    assert_eq!(r.url, "https://entrez.enphaseenergy.com/entrez_tokens");
    assert_eq!(
        form_fields(&r),
        pairs(&[
            ("uncommissioned", "off"),
            ("Site", "my+site"),
            ("serialNum", "121212121212"),
        ])
    );
    let r = token_request("http://h", "x", "1", false);
    assert_eq!(form_fields(&r)[0], ("uncommissioned".to_string(), "on".to_string()));
}

#[test]
fn gateway_base_url_is_https() {
    assert_eq!(gateway_base_url("envoy.local"), "https://envoy.local");
    assert_eq!(gateway_base_url("192.168.1.100"), "https://192.168.1.100");
}

#[test]
fn auth_check_request_carries_bearer_token() {
    let r = auth_check_request("https://envoy.local", "tok");
    assert_eq!(r.method, Method::Get);
    assert_eq!(r.url, "https://envoy.local/auth/check_jwt");
    assert_eq!(r.headers, pairs(&[("Authorization", "Bearer tok")]));
    assert!(matches!(r.body, Body::Empty));
}

#[test]
fn auth_accepts_200_with_valid_token() {
    assert!(auth_outcome(200, "<p>Valid token.</p>").is_ok());
}

#[test]
fn auth_rejects_200_with_other_body() {
    match auth_outcome(200, "  Token expired \n") {
        Err(EnphaseError::AuthenticationFailed(m)) => assert_eq!(m, "JWT check failed: Token expired"),
        other => panic!("unexpected {:?}", other),
    }
}

#[test]
fn auth_rejects_401_with_valid_token_text() {
    match auth_outcome(401, "Valid token") {
        Err(EnphaseError::AuthenticationFailed(m)) => assert_eq!(m, "JWT check failed: Valid token"),
        other => panic!("unexpected {:?}", other),
    }
}

#[test]
fn auth_rejection_without_body_has_generic_message() {
    match auth_outcome(401, "") {
        Err(EnphaseError::AuthenticationFailed(m)) => {
            assert_eq!(m, "Invalid token or authentication failed")
        }
        other => panic!("unexpected {:?}", other),
    }
}

#[test]
fn power_payload_is_json_level() {
    assert_eq!(power_payload(PowerState::On), r#"{"length":1,"arr":[0]}"#);
    assert_eq!(power_payload(PowerState::Off), r#"{"length":1,"arr":[1]}"#);
}

#[test]
fn set_power_request_is_put_with_form_content_type() {
    let r = set_power_request("https://envoy.local", "603980032", PowerState::Off);
    assert_eq!(r.method, Method::Put);
    assert_eq!(r.url, "https://envoy.local/ivp/mod/603980032/mode/power");
    assert_eq!(
        r.headers,
        pairs(&[("Content-Type", "application/x-www-form-urlencoded; charset=UTF-8")])
    );
    match r.body {
        Body::Text(t) => assert_eq!(t, r#"{"length":1,"arr":[1]}"#),
        other => panic!("unexpected {:?}", other),
    }
}

#[test]
fn get_power_request_asks_for_json() {
    let r = get_power_request("https://envoy.local", "603980032");
    assert_eq!(r.method, Method::Get);
    assert_eq!(r.url, power_url("https://envoy.local", "603980032"));
    assert_eq!(r.headers, pairs(&[("Accept", "application/json, text/javascript, */*; q=0.01")]));
    assert!(matches!(r.body, Body::Empty));
}

#[test]
fn set_power_succeeds_only_on_204() {
    assert!(set_power_outcome(204).is_ok());
    match set_power_outcome(200) {
        Err(EnphaseError::InvalidResponse(m)) => {
            assert_eq!(m, "Failed to set power state: HTTP 200");
            assert!(m.contains("200"));
        }
        other => panic!("unexpected {:?}", other),
    }
}

#[test]
fn set_power_failure_names_any_status() {
    for (status, text) in [(0u16, "0"), (9, "9"), (10, "10"), (500, "500"), (65535, "65535")] {
        match set_power_outcome(status) {
            Err(EnphaseError::InvalidResponse(m)) => {
                assert_eq!(m, format!("Failed to set power state: HTTP {text}"))
            }
            other => panic!("unexpected {:?}", other),
        }
    }
}

#[test]
fn missing_username_is_configuration_error() {
    match credentials_from_env(None, Some("pw".to_string())) {
        Err(EnphaseError::ConfigurationError(m)) => {
            assert_eq!(m, "ENTREZ_USERNAME environment variable not set")
        }
        other => panic!("unexpected {:?}", other),
    }
}

#[test]
fn missing_password_is_configuration_error() {
    match credentials_from_env(Some("u".to_string()), None) {
        Err(EnphaseError::ConfigurationError(m)) => {
            assert_eq!(m, "ENTREZ_PASSWORD environment variable not set")
        }
        other => panic!("unexpected {:?}", other),
    }
    assert!(matches!(credentials_from_env(None, None), Err(EnphaseError::ConfigurationError(_))));
}

#[test]
fn present_credentials_pass_through() {
    let (u, p) = credentials_from_env(Some("u".to_string()), Some(String::new())).unwrap();
    assert_eq!(u, "u");
    assert_eq!(p, "");
}

#[test]
fn split_and_contains_work_on_characters() {
    assert_eq!(split_once("aé=b=c", "="), Some(("aé", "b=c")));
    assert_eq!(split_once("abc", "x"), None);
    assert_eq!(split_once("abc", ""), Some(("", "abc")));
    assert!(contains("the Valid token", "Valid token"));
    assert!(!contains("Valid toke", "Valid token"));
}

#[test]
fn json_error_converts_to_json_kind() {
    let e = serde_json::from_str::<serde_json::Value>("{").unwrap_err();
    assert!(matches!(EnphaseError::from(e), EnphaseError::JsonError(_)));
}
