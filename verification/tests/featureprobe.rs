use feature_probe::FPDetail;
use feature_probe::FPValue;
use feature_probe::FeatureProbe;
use feature_probe::Repository;
use feature_probe::repo::new_repository;

fn detail(value: FPValue, version: u64, rule_index: usize, reason: &str) -> FPDetail<FPValue> {
    FPDetail {
        value,
        rule_index: Some(rule_index),
        variation_index: None,
        version: Some(version),
        reason: reason.to_owned(),
        track_access_events: None,
        debug_until_time: None,
    }
}

fn load_repo() -> Repository {
    let mut repo: Repository = new_repository();
    repo.insert(
        "bool_toggle".to_owned(),
        detail(FPValue::Bool(true), 1, 0, "rule match"),
    );
    repo.insert(
        "number_toggle".to_owned(),
        detail(FPValue::Number(1.0f64.to_bits()), 1, 0, "rule match"),
    );
    repo.insert(
        "string_toggle".to_owned(),
        detail(FPValue::Str("1".to_owned()), 1, 0, "rule match"),
    );
    repo.insert(
        "json_toggle".to_owned(),
        detail(
            FPValue::Document(r#"{"v":"v1","variation_0":"c2"}"#.to_owned()),
            1,
            0,
            "rule match",
        ),
    );
    repo
}

#[test]
fn test_bool() {
    let repo = load_repo();
    let fp = FeatureProbe::new_with(repo);
    assert!(fp.bool_value("bool_toggle", false));

    let detail = fp.bool_detail("bool_toggle", false);
    assert!(detail.value);
    assert_eq!(detail.version, Some(1));
    assert_eq!(detail.rule_index, Some(0));
}

#[test]
fn test_number() {
    let repo = load_repo();
    let fp = FeatureProbe::new_with(repo);
    assert_eq!(
        f64::from_bits(fp.number_value("number_toggle", 0.0f64.to_bits())),
        1.0
    );

    let detail = fp.number_detail("number_toggle", 0.0f64.to_bits());
    assert_eq!(f64::from_bits(detail.value), 1.0);
    assert_eq!(detail.version, Some(1));
    assert_eq!(detail.rule_index, Some(0));
}

#[test]
fn test_string() {
    let repo = load_repo();
    let fp = FeatureProbe::new_with(repo);
    assert_eq!(fp.string_value("string_toggle", "0".to_owned()), "1".to_owned());

    let detail = fp.string_detail("string_toggle", "0".to_owned());
    assert_eq!(detail.value, "1".to_owned());
    assert_eq!(detail.version, Some(1));
    assert_eq!(detail.rule_index, Some(0));
}

#[test]
fn test_json() {
    let repo = load_repo();
    let expect = FPValue::Document(r#"{"v":"v1","variation_0":"c2"}"#.to_owned());

    let fp = FeatureProbe::new_with(repo);
    assert_eq!(
        fp.json_value("json_toggle", FPValue::Str("".to_owned())),
        expect
    );

    let detail = fp.json_detail("json_toggle", FPValue::Str("0".to_owned()));
    assert_eq!(detail.value, expect);
    assert_eq!(detail.version, Some(1));
    assert_eq!(detail.rule_index, Some(0));
}

#[test]
fn bool_fixture_details() {
    let fp = FeatureProbe::new_with(load_repo());

    let detail = fp.bool_detail("bool_toggle", false);
    assert!(detail.value);
    assert_eq!(detail.version, Some(1));
    assert_eq!(detail.rule_index, Some(0));
    assert_eq!(detail.reason, "rule match");

    assert!(!fp.bool_value("missing_toggle", false));
    let missing = fp.bool_detail("missing_toggle", false);
    assert!(!missing.value);
    assert_eq!(missing.reason, "Toggle missing_toggle not found");
    assert_eq!(missing.version, None);
    assert_eq!(missing.rule_index, None);
}

#[test]
fn type_mismatch_detail() {
    let fp = FeatureProbe::new_with(load_repo());
    let detail = fp.bool_detail("string_toggle", true);
    assert!(detail.value);
    assert_eq!(detail.reason, "Value type mismatch");
    assert_eq!(detail.version, None);

    let s = fp.string_detail("bool_toggle", "fallback".to_owned());
    assert_eq!(s.value, "fallback");
    assert_eq!(s.reason, "Value type mismatch");

    let n = fp.number_detail("string_toggle", 0.5f64.to_bits());
    assert_eq!(f64::from_bits(n.value), 0.5);
    assert_eq!(n.reason, "Value type mismatch");
}

#[test]
fn absent_key_gives_default_for_every_type() {
    let fp = FeatureProbe::new_with(load_repo());
    assert_eq!(fp.string_value("nope", "d".to_owned()), "d");
    assert_eq!(fp.number_value("nope", 2.5f64.to_bits()), 2.5f64.to_bits());
    assert_eq!(
        fp.json_value("nope", FPValue::Str("d".to_owned())),
        FPValue::Str("d".to_owned())
    );
    let d = fp.string_detail("nope", "d".to_owned());
    assert!(d.reason.contains("not found"));
}
