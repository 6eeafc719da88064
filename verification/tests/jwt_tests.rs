use app_broker::jwt::{claim_times, claims_json, Error, Jwt};

#[test]
fn rejects_bytes_that_are_no_rsa_pem() {
    assert!(Jwt::new(b"not a pem at all").is_err());
}

#[test]
fn minting_with_a_symmetric_secret_reports_a_signing_failure() {
    // The minter signs with an RSA-family algorithm; a symmetric secret
    // reaches the signing step and is refused there, never earlier.
    let jwt = Jwt::from_secret(b"a throwaway test secret");
    match jwt.for_app("12345").mint() {
        Err(Error::Jwt(_)) => {}
        Err(Error::Time(m)) => panic!("failed on the clock instead: {}", m),
        Ok(_) => panic!("a symmetric secret signed an RSA-family assertion"),
    }
}

#[test]
fn generate_reports_the_same_signing_failure() {
    let jwt = Jwt::from_secret(b"a throwaway test secret");
    match jwt.for_app("12345").generate() {
        Err(Error::Jwt(_)) => {}
        Err(Error::Time(m)) => panic!("failed on the clock instead: {}", m),
        Ok(token) => panic!("a symmetric secret signed: {}", token),
    }
}

#[test]
fn claim_times_wrap_the_clock_reading() {
    assert_eq!(claim_times(60), (0, 660));
    assert_eq!(claim_times(1000), (940, 1600));
}

#[test]
fn claim_window_is_660_seconds_and_never_in_the_future() {
    let now: u64 = 1_700_000_000;
    let (iat, exp) = claim_times(now);
    assert_eq!(exp - iat, 660);
    assert!(iat <= now);
}

#[test]
fn later_clock_readings_issue_no_earlier() {
    let (iat1, _) = claim_times(1_700_000_000);
    let (iat2, _) = claim_times(1_700_000_007);
    assert!(iat1 <= iat2);
}

#[test]
fn error_message_is_the_inner_cause() {
    assert_eq!(Error::Time("clock unreadable".to_string()).message(), "clock unreadable");
    assert_eq!(Error::Jwt("bad key".to_string()).message(), "bad key");
}

#[test]
fn claims_render_with_json_escaping() {
    let text = claims_json(100, 760, "a\"b\\c\nd");
    assert_eq!(text, r#"{"iat":100,"exp":760,"iss":"a\"b\\c\u000ad"}"#);
}

#[test]
fn claims_render_plain_issuer_verbatim() {
    let text = claims_json(1700000000, 1700000660, "314159");
    assert_eq!(text, r#"{"iat":1700000000,"exp":1700000660,"iss":"314159"}"#);
}

#[test]
fn claims_parse_back_to_exactly_the_three_claims() {
    let text = claims_json(1700000000, 1700000660, "my-app");
    let v: serde_json::Value = serde_json::from_str(&text).unwrap();
    assert_eq!(v["iat"].as_u64().unwrap(), 1700000000);
    assert_eq!(v["exp"].as_u64().unwrap(), 1700000660);
    assert_eq!(v["iss"].as_str().unwrap(), "my-app");
    assert_eq!(v.as_object().unwrap().len(), 3);
}
