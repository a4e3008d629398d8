use feature_probe::FPBoolDetail;
use feature_probe::FPDetail;
use feature_probe::FPError;
use feature_probe::FPStrDetail;
use feature_probe::FPUser;
use feature_probe::encode::base64_string;
use feature_probe::encode::decimal_string;
use feature_probe::generate_key;
use feature_probe::mobile::FPUrlBuilder;
use feature_probe::mobile::index_u16;
use feature_probe::mobile::json_text;
use feature_probe::FPValue;
use feature_probe::feature_probe::register_payload;
use feature_probe::feature_probe::sync_query;
use feature_probe::user_agent;

#[test]
fn test_user_with() {
    let u = FPUser::new("key".to_owned())
        .with("name".to_owned(), "bob".to_owned())
        .with("phone".to_owned(), "123".to_owned());
    assert_eq!(u.key(), "key");
    assert_eq!(u.get("name"), Some(&"bob".to_owned()));
    assert_eq!(u.get("phone"), Some(&"123".to_owned()));
    assert_eq!(u.get_all().len(), 2);
}

#[test]
fn test_user_with_attrs() {
    let attrs = vec![
        ("name".to_owned(), "bob".to_owned()),
        ("phone".to_owned(), "123".to_owned()),
    ];
    let u = FPUser::new("key".to_owned()).with_attrs(attrs);
    assert_eq!(u.get_all().len(), 2);
}

#[test]
fn user_with_replaces_existing_key() {
    let u = FPUser::new("key".to_owned())
        .with("name".to_owned(), "bob".to_owned())
        .with("name".to_owned(), "eve".to_owned());
    assert_eq!(u.get("name"), Some(&"eve".to_owned()));
    assert_eq!(u.get_all().len(), 1);
    assert_eq!(u.get("missing"), None);
}

#[test]
fn user_base64_encoding_is_stable() {
    let plain = FPUser::new("u1".to_owned());
    assert_eq!(plain.as_base64(), "eyJrZXkiOiJ1MSIsImF0dHJzIjp7fX0=");

    let rich = FPUser::new("key".to_owned())
        .with("name".to_owned(), "bob".to_owned())
        .with("phone".to_owned(), "123".to_owned());
    assert_eq!(
        rich.as_base64(),
        "eyJrZXkiOiJrZXkiLCJhdHRycyI6eyJuYW1lIjoiYm9iIiwicGhvbmUiOiIxMjMifX0="
    );
}

#[test]
fn sync_query_carries_user() {
    let u = FPUser::new("u1".to_owned());
    assert_eq!(sync_query(&u), "user=eyJrZXkiOiJ1MSIsImF0dHJzIjp7fX0=");
}

#[test]
fn base64_matches_known_vectors() {
    assert_eq!(base64_string(&b"hello".to_vec()), "aGVsbG8=");
    assert_eq!(base64_string(&b"".to_vec()), "");
    assert_eq!(base64_string(&b"ab".to_vec()), "YWI=");
    assert_eq!(base64_string(&b"abc".to_vec()), "YWJj");
}

#[test]
fn decimal_rendering() {
    assert_eq!(decimal_string(0), "0");
    assert_eq!(decimal_string(500), "500");
    assert_eq!(decimal_string(340282366920938463463374607431768211455), "340282366920938463463374607431768211455");
}

#[test]
fn register_payload_escapes_the_key() {
    assert_eq!(register_payload("client-key"), "{\"key\":\"client-key\"}");
    assert_eq!(register_payload("a\"b\\c"), "{\"key\":\"a\\\"b\\\\c\"}");
    assert_eq!(register_payload("x\ny"), "{\"key\":\"x\\u000ay\"}");
}

#[test]
fn user_agent_forms() {
    assert_eq!(user_agent("linux", "1.2.0"), "Linux/1.2.0");
    assert_eq!(user_agent("ios", "2.0.0"), "iOS/2.0.0");
    assert_eq!(user_agent("", "1.0.0"), "Uniffi/1.0.0");
    assert_eq!(user_agent("Windows", "3"), "Windows/3");
}

#[test]
fn error_messages() {
    assert_eq!(
        FPError::JsonError("x".to_owned()).message(),
        "invalid json: x"
    );
    assert_eq!(
        FPError::HttpError("y".to_owned()).message(),
        "invalid http: y"
    );
    assert_eq!(FPError::UrlError("z".to_owned()).message(), "invalid url: z");
}

#[test]
fn generated_key_is_decimal() {
    let k = generate_key();
    assert!(!k.is_empty());
    assert!(k.chars().all(|c| c.is_ascii_digit()));
}

#[test]
fn url_builder_composes_endpoints() {
    let urls = FPUrlBuilder::new("http://127.0.0.1:4007".to_owned())
        .build()
        .expect("urls should parse");
    assert_eq!(
        urls.toggles_url.as_str(),
        "http://127.0.0.1:4007/api/client-sdk/toggles"
    );
    assert_eq!(urls.events_url.as_str(), "http://127.0.0.1:4007/api/events");
    assert!(urls.realtime_url.as_str().ends_with("/realtime"));
    assert_eq!(urls.toggles_text, "http://127.0.0.1:4007/api/client-sdk/toggles");
    assert_eq!(urls.events_text, "http://127.0.0.1:4007/api/events");
    assert_eq!(urls.realtime_text, "http://127.0.0.1:4007//realtime");
}

#[test]
fn url_builder_honours_overrides_and_rejects_garbage() {
    let urls = FPUrlBuilder::new_urls(
        "http://h/".to_owned(),
        Some("http://elsewhere/t".to_owned()),
        None,
    )
    .build()
    .expect("urls should parse");
    assert_eq!(urls.toggles_url.as_str(), "http://elsewhere/t");
    assert_eq!(urls.events_url.as_str(), "http://h/api/events");

    assert!(FPUrlBuilder::new("not a url at all".to_owned()).build().is_none());
}

#[test]
fn json_text_renders_non_numeric_values() {
    assert_eq!(json_text(&FPValue::Null), Some("null".to_owned()));
    assert_eq!(json_text(&FPValue::Bool(true)), Some("true".to_owned()));
    assert_eq!(json_text(&FPValue::Bool(false)), Some("false".to_owned()));
    assert_eq!(
        json_text(&FPValue::Str("a\"b".to_owned())),
        Some("\"a\\\"b\"".to_owned())
    );
    assert_eq!(
        json_text(&FPValue::Document("[1,2]".to_owned())),
        Some("[1,2]".to_owned())
    );
    assert_eq!(json_text(&FPValue::Number(1.5f64.to_bits())), None);
}

#[test]
fn rule_index_narrowing() {
    assert_eq!(index_u16(3), 3);
    assert_eq!(index_u16(0x12345), 0x2345);
}

#[test]
fn binding_details_carry_the_fields_over() {
    let b = FPBoolDetail::from_detail(FPDetail {
        value: true,
        rule_index: Some(0x12345),
        variation_index: Some(2),
        version: Some(9),
        reason: "rule match".to_owned(),
        track_access_events: None,
        debug_until_time: None,
    });
    assert!(b.value);
    assert_eq!(b.rule_index, Some(0x2345));
    assert_eq!(b.version, Some(9));
    assert_eq!(b.reason, "rule match");

    let s = FPStrDetail::from_detail(FPDetail {
        value: "v".to_owned(),
        rule_index: None,
        variation_index: None,
        version: None,
        reason: "r".to_owned(),
        track_access_events: None,
        debug_until_time: None,
    });
    assert_eq!(s.value, "v");
    assert_eq!(s.rule_index, None);
    assert_eq!(s.reason, "r");
}
