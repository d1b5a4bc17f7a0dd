use envsh::decimal::{i64_to_dec, u64_to_dec};
use envsh::expiry::{classify_expiry, Expiry, ExpiryError, MAX_EXPIRY_HOURS};
use envsh::form::{build_create_form, build_manage_form, FormField, PartValue, UsageError};
use envsh::response::{expiry_line, render_create_output, render_manage_output, status_is_success};
use envsh::target::{classify_target, validate_manage_url, ManageUrlError, Target, TargetError};
use envsh::ENVS;

fn url_target(raw: &str) -> Target {
    match classify_target(raw.to_string(), false) {
        Ok(t) => t,
        Err(e) => panic!("expected a URL target for {raw}: {e:?}"),
    }
}

fn field_names(fields: &[FormField]) -> Vec<&str> {
    fields.iter().map(|f| f.name.as_str()).collect()
}

fn text_of(field: &FormField) -> &str {
    match &field.value {
        PartValue::Text(t) => t.as_str(),
        PartValue::FilePath(p) => panic!("expected text, found file path {p}"),
    }
}

#[test]
fn existing_file_path_classifies_as_file() {
    match classify_target("notes/report.txt".to_string(), true) {
        Ok(Target::File(path)) => assert_eq!(path, "notes/report.txt"),
        other => panic!("expected a file target, found {other:?}"),
    }
}

#[test]
fn valid_url_classifies_as_url() {
    match classify_target("https://example.com/a".to_string(), false) {
        Ok(Target::Url(u)) => {
            assert_eq!(u.scheme, "https");
            assert_eq!(u.domain.as_deref(), Some("example.com"));
            assert_eq!(u.serialized, "https://example.com/a");
        }
        other => panic!("expected a URL target, found {other:?}"),
    }
}

#[test]
fn neither_file_nor_url_is_rejected() {
    assert!(matches!(
        classify_target("not a url at all".to_string(), false),
        Err(TargetError::InvalidUrl)
    ));
}

#[test]
fn empty_target_is_rejected() {
    assert!(matches!(
        classify_target(String::new(), true),
        Err(TargetError::Empty)
    ));
}

#[test]
fn expiry_at_or_below_threshold_is_hours() {
    assert_eq!(classify_expiry(5), Ok(Expiry::Hours(5)));
    assert_eq!(classify_expiry(MAX_EXPIRY_HOURS), Ok(Expiry::Hours(720)));
    assert_eq!(classify_expiry(-3), Ok(Expiry::Hours(-3)));
}

#[test]
fn expiry_above_threshold_is_timestamp() {
    assert_eq!(classify_expiry(721), Ok(Expiry::Timestamp(721)));
    assert_eq!(
        classify_expiry(1700000000000),
        Ok(Expiry::Timestamp(1700000000000))
    );
}

#[test]
fn expiry_beyond_timestamp_range_is_rejected() {
    assert_eq!(
        classify_expiry(999999999999999999),
        Err(ExpiryError::InvalidTimestamp)
    );
}

#[test]
fn timestamp_range_boundaries_are_exact() {
    assert_eq!(
        classify_expiry(253402207200000),
        Ok(Expiry::Timestamp(253402207200000))
    );
    assert_eq!(
        classify_expiry(253402207200001),
        Err(ExpiryError::InvalidTimestamp)
    );
    assert!(expiry_line(-377705023201000).is_some());
    assert_eq!(expiry_line(-377705023201001), None);
}

#[test]
fn expiry_encodes_as_plain_decimal() {
    assert_eq!(Expiry::Hours(12).encode(), "12");
    assert_eq!(Expiry::Hours(0).encode(), "0");
    assert_eq!(Expiry::Hours(-5).encode(), "-5");
    assert_eq!(Expiry::Timestamp(1700000000000).encode(), "1700000000000");
}

#[test]
fn decimal_rendering_matches_std() {
    assert_eq!(u64_to_dec(0), "0");
    assert_eq!(u64_to_dec(42), "42");
    assert_eq!(u64_to_dec(u64::MAX), u64::MAX.to_string());
    assert_eq!(i64_to_dec(i64::MIN), "-9223372036854775808");
    assert_eq!(i64_to_dec(i64::MAX), i64::MAX.to_string());
    assert_eq!(i64_to_dec(-1), "-1");
}

#[test]
fn service_url_is_accepted() {
    let u = validate_manage_url("https://envs.sh/abc".to_string()).unwrap();
    assert_eq!(u.serialized, "https://envs.sh/abc");
}

#[test]
fn service_url_is_normalized_before_the_check() {
    let u = validate_manage_url("HTTPS://ENVS.SH/abc".to_string()).unwrap();
    assert_eq!(u.scheme, "https");
    assert_eq!(u.domain.as_deref(), Some("envs.sh"));
    assert_eq!(u.serialized, "https://envs.sh/abc");
}

#[test]
fn insecure_scheme_is_rejected() {
    assert!(matches!(
        validate_manage_url("http://envs.sh/abc".to_string()),
        Err(ManageUrlError::NotServiceUrl)
    ));
}

#[test]
fn foreign_host_is_rejected() {
    assert!(matches!(
        validate_manage_url("https://evil.example/abc".to_string()),
        Err(ManageUrlError::NotServiceUrl)
    ));
}

#[test]
fn malformed_manage_url_is_rejected() {
    assert!(matches!(
        validate_manage_url("no scheme here".to_string()),
        Err(ManageUrlError::InvalidUrl)
    ));
    assert!(matches!(
        validate_manage_url(String::new()),
        Err(ManageUrlError::Empty)
    ));
}

#[test]
fn shorten_form_has_only_a_shorten_field() {
    let fields = build_create_form(url_target("https://example.com/long"), true, false, None)
        .unwrap();
    assert_eq!(field_names(&fields), ["shorten"]);
    assert_eq!(text_of(&fields[0]), "https://example.com/long");
}

#[test]
fn shorten_with_file_is_rejected() {
    let target = classify_target("a.txt".to_string(), true).unwrap();
    assert!(matches!(
        build_create_form(target, true, false, None),
        Err(UsageError::ShortenWithFile)
    ));
}

#[test]
fn expires_with_url_is_rejected() {
    assert!(matches!(
        build_create_form(
            url_target("https://example.com/x"),
            false,
            false,
            Some(Expiry::Hours(24))
        ),
        Err(UsageError::ExpiresWithUrl)
    ));
}

#[test]
fn file_form_carries_secret_and_expires() {
    let target = classify_target("data.bin".to_string(), true).unwrap();
    let fields = build_create_form(target, false, true, Some(Expiry::Hours(24))).unwrap();
    assert_eq!(field_names(&fields), ["file", "secret", "expires"]);
    match &fields[0].value {
        PartValue::FilePath(p) => assert_eq!(p, "data.bin"),
        other => panic!("expected a file part, found {other:?}"),
    }
    assert_eq!(text_of(&fields[1]), "");
    assert_eq!(text_of(&fields[2]), "24");
}

#[test]
fn manage_form_needs_exactly_one_action() {
    assert!(matches!(
        build_manage_form("tok".to_string(), true, Some(Expiry::Hours(1))),
        Err(UsageError::BothDeleteAndExpires)
    ));
    assert!(matches!(
        build_manage_form("tok".to_string(), false, None),
        Err(UsageError::NoManageAction)
    ));
}

#[test]
fn delete_form_has_token_and_empty_delete_only() {
    let fields = build_manage_form("tok123".to_string(), true, None).unwrap();
    assert_eq!(field_names(&fields), ["token", "delete"]);
    assert_eq!(text_of(&fields[0]), "tok123");
    assert_eq!(text_of(&fields[1]), "");
}

#[test]
fn manage_expiry_form_has_token_and_expires() {
    let fields = build_manage_form("tok".to_string(), false, Some(Expiry::Hours(100))).unwrap();
    assert_eq!(field_names(&fields), ["token", "expires"]);
    assert_eq!(text_of(&fields[1]), "100");
}

#[test]
fn status_success_covers_exactly_2xx() {
    assert!(status_is_success(200));
    assert!(status_is_success(299));
    assert!(!status_is_success(199));
    assert!(!status_is_success(300));
    assert!(!status_is_success(404));
}

#[test]
fn plain_url_creation_prints_one_success_line() {
    let target = url_target("https://example.com/page");
    let fields = build_create_form(target, false, false, None).unwrap();
    assert_eq!(field_names(&fields), ["url"]);
    assert_eq!(text_of(&fields[0]), "https://example.com/page");
    let lines = render_create_output(200, " https://envs.sh/abc.txt \n", None, None);
    assert_eq!(lines, ["Succesful! https://envs.sh/abc.txt"]);
}

#[test]
fn failed_creation_prints_status_code() {
    let lines = render_create_output(404, "not found", None, None);
    assert_eq!(lines, ["[404] not found"]);
}

#[test]
fn display_secret_prints_expiry_and_token_lines() {
    let expiry = expiry_line(1700000000000).unwrap();
    assert!(expiry.starts_with("Expires at "));
    assert!(expiry.len() > "Expires at ".len());
    let lines = render_create_output(200, "https://envs.sh/x", Some(expiry), Some("tok123".to_string()));
    assert_eq!(lines.len(), 3);
    assert_eq!(lines[0], "Succesful! https://envs.sh/x");
    assert!(lines[1].starts_with("Expires at "));
    assert_eq!(lines[2], "X-Token: tok123");
}

#[test]
fn out_of_range_expiry_header_yields_no_line() {
    assert_eq!(expiry_line(999999999999999999), None);
}

#[test]
fn manage_output_reports_status() {
    assert_eq!(render_manage_output(200, "ignored"), "Change accepted!");
    assert_eq!(render_manage_output(500, "oops"), "[500] oops");
}

#[test]
fn service_endpoint_is_fixed() {
    assert_eq!(ENVS, "https://envs.sh");
}
