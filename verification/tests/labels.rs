use indexify::api::utils::parse_labels_eq_filter;
use indexify::api::utils::parse_validate_label_raw;
use indexify::api::utils::validate_label_key;
use indexify::api::utils::validate_label_value;
use indexify::api::utils::FilterError;
use indexify::api::utils::LabelError;
use indexify::api::utils::LabelFailure;
use indexify::api::utils::RawLabelError;

#[test]
fn valid_keys_pass() {
    assert!(validate_label_key("app").is_ok());
    assert!(validate_label_key("a").is_ok());
    assert!(validate_label_key("my-key_1.x").is_ok());
    let longest = "a".repeat(63);
    assert!(validate_label_key(&longest).is_ok());
}

#[test]
fn empty_key_fails_at_both_ends() {
    let err = validate_label_key("").unwrap_err();
    assert_eq!(err.failures, vec![LabelFailure::BadStart, LabelFailure::BadEnd]);
}

#[test]
fn too_long_key_fails() {
    let long = "a".repeat(64);
    let err = validate_label_key(&long).unwrap_err();
    assert_eq!(err.failures, vec![LabelFailure::TooLong]);
}

#[test]
fn key_with_bad_edges_and_chars_lists_every_failure() {
    let err = validate_label_key("-a b-").unwrap_err();
    assert_eq!(
        err.failures,
        vec![LabelFailure::BadStart, LabelFailure::BadEnd, LabelFailure::BadChar]
    );
}

#[test]
fn non_ascii_key_fails() {
    let err = validate_label_key("caf\u{e9}").unwrap_err();
    assert!(err.failures.contains(&LabelFailure::NotAscii));
    assert!(err.failures.contains(&LabelFailure::BadEnd));
}

#[test]
fn empty_value_is_allowed() {
    assert!(validate_label_value("").is_ok());
}

#[test]
fn invalid_value_fails_like_a_key() {
    let err = validate_label_value(".x").unwrap_err();
    assert_eq!(err.failures, vec![LabelFailure::BadStart]);
}

#[test]
fn raw_label_splits_at_single_colon() {
    let (k, v) = parse_validate_label_raw("env:prod").unwrap();
    assert_eq!(k, "env");
    assert_eq!(v, "prod");
    let (k, v) = parse_validate_label_raw("env:").unwrap();
    assert_eq!(k, "env");
    assert_eq!(v, "");
}

#[test]
fn raw_label_without_colon_is_rejected() {
    assert_eq!(parse_validate_label_raw("env"), Err(RawLabelError::MissingColon));
    assert_eq!(parse_validate_label_raw(""), Err(RawLabelError::MissingColon));
}

#[test]
fn raw_label_with_two_colons_is_rejected() {
    assert_eq!(parse_validate_label_raw("a:b:c"), Err(RawLabelError::TooManyColons));
}

#[test]
fn filter_parses_labels_in_order() {
    let pairs = parse_labels_eq_filter("env:prod,team:search").unwrap();
    assert_eq!(
        pairs,
        vec![
            ("env".to_string(), "prod".to_string()),
            ("team".to_string(), "search".to_string()),
        ]
    );
}

#[test]
fn filter_accepts_empty_values() {
    let pairs = parse_labels_eq_filter("env:").unwrap();
    assert_eq!(pairs, vec![("env".to_string(), "".to_string())]);
}

#[test]
fn empty_filter_is_rejected() {
    assert_eq!(parse_labels_eq_filter(""), Err(FilterError::Empty));
}

#[test]
fn filter_label_without_colon_is_rejected() {
    assert_eq!(
        parse_labels_eq_filter("envprod"),
        Err(FilterError::BadLabel {
            label: "envprod".to_string(),
            error: RawLabelError::MissingColon,
        })
    );
}

#[test]
fn filter_label_with_two_colons_is_rejected() {
    assert_eq!(
        parse_labels_eq_filter("env:prod:extra"),
        Err(FilterError::BadLabel {
            label: "env:prod:extra".to_string(),
            error: RawLabelError::TooManyColons,
        })
    );
}

#[test]
fn filter_duplicate_key_is_rejected() {
    assert_eq!(
        parse_labels_eq_filter("env:prod,env:dev"),
        Err(FilterError::DuplicateKey { key: "env".to_string() })
    );
}

#[test]
fn filter_invalid_key_is_rejected() {
    assert_eq!(
        parse_labels_eq_filter("-env:prod"),
        Err(FilterError::InvalidKey {
            key: "-env".to_string(),
            error: LabelError { failures: vec![LabelFailure::BadStart] },
        })
    );
}

#[test]
fn filter_invalid_value_is_rejected() {
    assert_eq!(
        parse_labels_eq_filter("env:-prod"),
        Err(FilterError::InvalidValue {
            value: "-prod".to_string(),
            error: LabelError { failures: vec![LabelFailure::BadStart] },
        })
    );
}

#[test]
fn label_error_message_joins_every_failure() {
    let err = validate_label_key("-a b-").unwrap_err();
    assert_eq!(
        err.message(),
        "must begin with an alphanumeric character, must end with an alphanumeric character, \
         must contain only alphanumeric characters, dashes, underscores, and dots"
    );
    let err = validate_label_key(&"a".repeat(64)).unwrap_err();
    assert_eq!(err.message(), "must be 63 characters or less");
}
