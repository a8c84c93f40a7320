use shreddit::access_token::{access_token_request, new_access_token, AccessTokenResponse};
use shreddit::cli::{
    date_part, parse_after, parse_before, parse_bound, resolve_before, resolve_bound,
    starts_with_minus, Bound, Config,
};
use shreddit::request::Method;
use shreddit::time::Timestamp;

#[test]
fn absolute_before_is_the_date_itself() {
    assert_eq!(
        parse_before("2021-02-15T06:37:47 +0000"),
        Ok(Timestamp { secs: 1_613_371_067, nanos: 0 })
    );
    assert_eq!(parse_before("@12"), Ok(Timestamp { secs: 12, nanos: 0 }));
}

#[test]
fn relative_before_lies_back_from_now() {
    let now = std::time::SystemTime::now()
        .duration_since(std::time::UNIX_EPOCH)
        .unwrap()
        .as_secs() as i64;
    let bound = parse_before("-3 hours").unwrap();
    let expected = now - 3 * 3_600;
    assert!(bound.secs >= expected - 120 && bound.secs <= expected + 120);
    assert!(bound.nanos < 1_000_000_000);
}

#[test]
fn unreadable_before_is_refused_with_the_text() {
    assert_eq!(
        parse_before("no date at all"),
        Err("Invalid timestamp format for SHREDDIT_BEFORE: no date at all".to_string())
    );
    assert_eq!(
        parse_before("-no distance"),
        Err("Invalid duration format for SHREDDIT_BEFORE: -no distance".to_string())
    );
}

#[test]
fn leading_minus_marks_a_distance() {
    assert!(starts_with_minus("-30 days"));
    assert!(starts_with_minus("-"));
    assert!(!starts_with_minus(""));
    assert!(!starts_with_minus("30 days"));
    assert!(!starts_with_minus(" -30 days"));
    assert_eq!(date_part("-30 days"), "30 days");
    assert_eq!(date_part("-"), "");
    assert_eq!(date_part("2020-01-01"), "2020-01-01");
    assert_eq!(date_part(""), "");
}

#[test]
fn distance_is_mirrored_around_now() {
    let asked = Timestamp { secs: 1_000, nanos: 0 };
    let now = Timestamp { secs: 1_001, nanos: 500 };
    let later = Timestamp { secs: 1_030, nanos: 0 };
    assert_eq!(
        resolve_before("-30 seconds", Some(later), asked, now),
        Ok(Timestamp { secs: 971, nanos: 500 })
    );
    let later = Timestamp { secs: 1_000, nanos: 750 };
    assert_eq!(
        resolve_before("-x", Some(later), asked, now),
        Ok(Timestamp { secs: 1_000, nanos: 999_999_750 })
    );
    let before_epoch = resolve_before(
        "-x",
        Some(Timestamp { secs: 10, nanos: 1 }),
        Timestamp { secs: 0, nanos: 0 },
        Timestamp { secs: 0, nanos: 0 },
    );
    assert_eq!(before_epoch, Ok(Timestamp { secs: -11, nanos: 999_999_999 }));
}

#[test]
fn plain_date_ignores_the_clock() {
    let date = Timestamp { secs: 77, nanos: 3 };
    let clock = Timestamp { secs: 5_000, nanos: 0 };
    assert_eq!(resolve_before("1970-01-01 00:01:17", Some(date), clock, clock), Ok(date));
}

#[test]
fn resolve_before_reports_what_it_cannot_settle() {
    let zero = Timestamp::from_secs(0);
    assert_eq!(
        resolve_before("tomorrowish", None, zero, zero),
        Err("Invalid timestamp format for SHREDDIT_BEFORE: tomorrowish".to_string())
    );
    assert_eq!(
        resolve_before("-soon", None, zero, zero),
        Err("Invalid duration format for SHREDDIT_BEFORE: -soon".to_string())
    );
    let far = Timestamp { secs: i64::MIN, nanos: 0 };
    assert_eq!(
        resolve_before("-far", Some(far), zero, Timestamp::from_secs(1)),
        Err("Date out of range for SHREDDIT_BEFORE: -far".to_string())
    );
    assert_eq!(resolve_before("far", Some(far), zero, zero), Ok(far));
}

#[test]
fn nanoseconds_are_split_into_seconds_and_rest() {
    assert_eq!(Timestamp::from_nanoseconds(0), Some(Timestamp { secs: 0, nanos: 0 }));
    assert_eq!(
        Timestamp::from_nanoseconds(1_500_000_000),
        Some(Timestamp { secs: 1, nanos: 500_000_000 })
    );
    assert_eq!(Timestamp::from_nanoseconds(-1), Some(Timestamp { secs: -1, nanos: 999_999_999 }));
    assert_eq!(
        Timestamp::from_nanoseconds(-2_000_000_000),
        Some(Timestamp { secs: -2, nanos: 0 })
    );
    let top = (i64::MAX as i128) * 1_000_000_000 + 999_999_999;
    assert_eq!(Timestamp::from_nanoseconds(top), Some(Timestamp { secs: i64::MAX, nanos: 999_999_999 }));
    assert_eq!(Timestamp::from_nanoseconds(top + 1), None);
    let bottom = (i64::MIN as i128) * 1_000_000_000;
    assert_eq!(Timestamp::from_nanoseconds(bottom), Some(Timestamp { secs: i64::MIN, nanos: 0 }));
    assert_eq!(Timestamp::from_nanoseconds(bottom - 1), None);
    assert_eq!(Timestamp::from_nanoseconds(i128::MIN), None);
    assert_eq!(Timestamp::from_nanoseconds(i128::MAX), None);
}

#[test]
fn access_token_request_carries_the_credentials() {
    let mut config = Config::new("me");
    config.password = "hunter2".to_string();
    let request = access_token_request(&config);
    assert_eq!(request.method, Method::Post);
    assert_eq!(request.uri, "https://www.reddit.com/api/v1/access_token");
    let fields: Vec<(&str, &str)> =
        request.params.iter().map(|p| (p.name.as_str(), p.value.as_str())).collect();
    assert_eq!(fields, vec![("grant_type", "password"), ("username", "me"), ("password", "hunter2")]);
    let headers: Vec<(&str, &str)> =
        request.headers.iter().map(|h| (h.name.as_str(), h.value.as_str())).collect();
    assert_eq!(headers, vec![("User-Agent", "ShredditRustClient")]);
}

#[test]
fn access_token_answer_is_token_or_message() {
    let granted = AccessTokenResponse::Success { access_token: "tok".to_string() };
    assert_eq!(new_access_token(granted), Ok("tok".to_string()));
    let refused = AccessTokenResponse::Error {
        error: "401".to_string(),
        message: "Unauthorized".to_string(),
    };
    assert_eq!(new_access_token(refused), Err("Unauthorized".to_string()));
    let odd = AccessTokenResponse::Unexpected("{\"x\":1}".to_string());
    assert_eq!(new_access_token(odd), Err("{\"x\":1}".to_string()));
}

#[test]
fn after_bound_is_read_under_its_own_name() {
    assert_eq!(parse_after("@12"), Ok(Timestamp { secs: 12, nanos: 0 }));
    assert_eq!(
        parse_after("no date at all"),
        Err("Invalid timestamp format for SHREDDIT_AFTER: no date at all".to_string())
    );
    assert_eq!(
        parse_after("-no distance"),
        Err("Invalid duration format for SHREDDIT_AFTER: -no distance".to_string())
    );
    assert_eq!(parse_bound(Bound::After, "@7"), Ok(Timestamp { secs: 7, nanos: 0 }));
    assert_eq!(
        parse_bound(Bound::Before, "nope"),
        Err("Invalid timestamp format for SHREDDIT_BEFORE: nope".to_string())
    );
    assert_eq!(Bound::Before.variable(), "SHREDDIT_BEFORE");
    assert_eq!(Bound::After.variable(), "SHREDDIT_AFTER");
}

#[test]
fn either_bound_is_settled_alike() {
    let zero = Timestamp::from_secs(0);
    let far = Timestamp { secs: i64::MIN, nanos: 0 };
    assert_eq!(
        resolve_bound(Bound::After, "-far", Some(far), zero, Timestamp::from_secs(1)),
        Err("Date out of range for SHREDDIT_AFTER: -far".to_string())
    );
    assert_eq!(
        resolve_bound(Bound::After, "-soon", None, zero, zero),
        Err("Invalid duration format for SHREDDIT_AFTER: -soon".to_string())
    );
    let asked = Timestamp { secs: 1_000, nanos: 0 };
    let now = Timestamp { secs: 1_001, nanos: 500 };
    let later = Timestamp { secs: 1_030, nanos: 0 };
    assert_eq!(
        resolve_bound(Bound::After, "-30 seconds", Some(later), asked, now),
        Ok(Timestamp { secs: 971, nanos: 500 })
    );
    assert_eq!(
        resolve_bound(Bound::Before, "-30 seconds", Some(later), asked, now),
        resolve_before("-30 seconds", Some(later), asked, now)
    );
}
