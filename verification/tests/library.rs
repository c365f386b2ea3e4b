use hoyo_daily::config::GameConfig;
use hoyo_daily::cookie::cookie_header;
use hoyo_daily::cookie::is_valid_cookie;
use hoyo_daily::cookie::parent_domain;
use hoyo_daily::cookie::CookieRecord;
use hoyo_daily::decimal::u128_to_decimal;
use hoyo_daily::hoyo::classify_response;
use hoyo_daily::hoyo::now_timestamp;
use hoyo_daily::hoyo::status_is_success;
use hoyo_daily::hoyo::HoyoResult;
use hoyo_daily::hoyo::HttpOutcome;
use hoyo_daily::hoyo::SendError;
use hoyo_daily::run::check_in_outcome;
use hoyo_daily::run::extract_code;
use hoyo_daily::run::gift_codes;
use hoyo_daily::run::pick_code;
use hoyo_daily::run::CheckInOutcome;

fn record(name: &str, value: &str, expires: Option<u64>) -> CookieRecord {
    CookieRecord {
        domain: String::from("hoyoverse.com"),
        name: String::from(name),
        value: String::from(value),
        expires,
    }
}

#[test]
fn expired_and_absent_cookies_are_dropped() {
    let cookies = vec![
        record("keep", "1", Some(1001)),
        record("expired", "2", Some(1000)),
        record("session", "3", None),
        record("later", "4", Some(2000)),
    ];
    assert_eq!(cookie_header(&cookies, 1000), "keep=1; later=4");
}

#[test]
fn no_usable_cookie_gives_empty_header() {
    let cookies = vec![record("a", "1", Some(5)), record("b", "2", None)];
    assert_eq!(cookie_header(&cookies, 10), "");
}

#[test]
fn single_usable_cookie_has_no_separator() {
    let cookies = vec![record("a", "1", Some(11))];
    assert_eq!(cookie_header(&cookies, 10), "a=1");
}

#[test]
fn cookie_validity_is_strict() {
    assert!(!is_valid_cookie(&record("a", "1", Some(10)), 10));
    assert!(is_valid_cookie(&record("a", "1", Some(11)), 10));
    assert!(!is_valid_cookie(&record("a", "1", None), 10));
}

#[test]
fn parent_domain_of_deep_host() {
    assert_eq!(parent_domain("a.b.example.com"), "example.com");
}

#[test]
fn parent_domain_of_two_label_host() {
    assert_eq!(parent_domain("example.com"), "example.com");
}

#[test]
fn parent_domain_of_single_label_host() {
    assert_eq!(parent_domain("localhost"), ".localhost");
}

#[test]
fn zero_retcode_yields_payload() {
    let outcome: HttpOutcome<u32> = HttpOutcome::Decoded {
        result: HoyoResult { retcode: 0, message: String::from("OK"), data: Some(7) },
    };
    assert!(matches!(classify_response(outcome), Ok(Some(7))));
}

#[test]
fn zero_retcode_with_no_payload_is_ok() {
    let outcome: HttpOutcome<u32> = HttpOutcome::Decoded {
        result: HoyoResult { retcode: 0, message: String::from("OK"), data: None },
    };
    assert!(matches!(classify_response(outcome), Ok(None)));
}

#[test]
fn nonzero_retcode_yields_api_error_despite_success_status() {
    let outcome: HttpOutcome<u32> = HttpOutcome::Decoded {
        result: HoyoResult { retcode: -100, message: String::from("login required"), data: None },
    };
    match classify_response(outcome) {
        Err(SendError::Api { error }) => {
            assert_eq!(error.retcode, -100);
            assert_eq!(error.message, "login required");
        }
        _ => panic!("expected an Api error"),
    }
}

#[test]
fn transport_failure_is_classified_as_transport() {
    let outcome: HttpOutcome<u32> = HttpOutcome::Transport { timeout: true };
    assert!(matches!(
        classify_response(outcome),
        Err(SendError::Transport { timeout: true })
    ));
}

#[test]
fn bad_status_is_classified_with_its_code() {
    let outcome: HttpOutcome<u32> = HttpOutcome::BadStatus { status: 503 };
    assert!(matches!(classify_response(outcome), Err(SendError::Status { status: 503 })));
}

#[test]
fn malformed_body_is_a_decode_error() {
    let outcome: HttpOutcome<u32> = HttpOutcome::MalformedBody;
    assert!(matches!(classify_response(outcome), Err(SendError::Decode)));
}

#[test]
fn status_success_range_is_2xx() {
    assert!(!status_is_success(199));
    assert!(status_is_success(200));
    assert!(status_is_success(299));
    assert!(!status_is_success(300));
    assert!(!status_is_success(404));
}

#[test]
fn url_code_parameter_is_extracted() {
    assert_eq!(
        extract_code("https://example.com/redeem?code=XYZ&other=1"),
        "XYZ"
    );
}

#[test]
fn first_code_parameter_wins() {
    assert_eq!(
        extract_code("https://example.com/redeem?a=1&code=FIRST&code=SECOND"),
        "FIRST"
    );
}

#[test]
fn malformed_url_is_used_literally() {
    assert_eq!(extract_code("ABC123"), "ABC123");
}

#[test]
fn url_without_code_parameter_is_used_literally() {
    assert_eq!(
        extract_code("https://example.com/redeem?other=1"),
        "https://example.com/redeem?other=1"
    );
}

#[test]
fn pick_code_takes_first_matching_pair() {
    let pairs = vec![
        (String::from("other"), String::from("1")),
        (String::from("code"), String::from("XYZ")),
    ];
    assert_eq!(pick_code(&pairs, "literal"), "XYZ");
}

#[test]
fn pick_code_falls_back_to_literal() {
    let pairs = vec![(String::from("other"), String::from("1"))];
    assert_eq!(pick_code(&pairs, "literal"), "literal");
}

#[test]
fn benign_retcodes_mean_already_checked_in() {
    for retcode in [-2003, -5003] {
        let result: Result<Option<()>, SendError> = Err(SendError::Api {
            error: hoyo_daily::hoyo::HoyoError { retcode, message: String::from("signed") },
        });
        assert_eq!(check_in_outcome(&result), CheckInOutcome::AlreadySigned);
    }
}

#[test]
fn other_retcode_means_failure() {
    let result: Result<Option<()>, SendError> = Err(SendError::Api {
        error: hoyo_daily::hoyo::HoyoError { retcode: -1, message: String::from("no") },
    });
    assert_eq!(check_in_outcome(&result), CheckInOutcome::Failed);
}

#[test]
fn check_in_ok_means_success() {
    let result: Result<Option<()>, SendError> = Ok(None);
    assert_eq!(check_in_outcome(&result), CheckInOutcome::Success);
}

#[test]
fn transport_timeout_means_generic_failure() {
    let result: Result<Option<()>, SendError> = Err(SendError::Transport { timeout: true });
    assert_eq!(check_in_outcome(&result), CheckInOutcome::Failed);
}

#[test]
fn disabled_game_has_no_redemption_plan() {
    let config = GameConfig {
        enable: false,
        uid: String::from("100"),
        cdkeys: Some(vec![String::from("ABC123")]),
    };
    assert!(gift_codes(&config).is_none());
}

#[test]
fn enabled_game_without_codes_has_empty_plan() {
    let config = GameConfig { enable: true, uid: String::from("100"), cdkeys: None };
    assert_eq!(gift_codes(&config), Some(vec![]));
}

#[test]
fn enabled_game_submits_extracted_codes() {
    let config = GameConfig {
        enable: true,
        uid: String::from("100"),
        cdkeys: Some(vec![
            String::from("ABC123"),
            String::from("https://example.com/redeem?code=XYZ&other=1"),
        ]),
    };
    let codes = gift_codes(&config).expect("enabled game must have a plan");
    assert_eq!(codes, vec![String::from("ABC123"), String::from("XYZ")]);
}

#[test]
fn decimal_rendering_is_exact() {
    assert_eq!(u128_to_decimal(0), "0");
    assert_eq!(u128_to_decimal(7), "7");
    assert_eq!(u128_to_decimal(1717171717123), "1717171717123");
}

#[test]
fn now_timestamp_is_after_2020() {
    assert!(now_timestamp() > 1_577_836_800_000);
}
