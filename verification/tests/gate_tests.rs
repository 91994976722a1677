use pmetrics::audit::Audit;
use pmetrics::audit::AuditTarget;
use pmetrics::audit::ConcernLevel;
use pmetrics::gate::AuthOutcome;
use pmetrics::gate::PathClass;
use pmetrics::gate::authenticate;
use pmetrics::gate::classify;
use pmetrics::gate::first_tenant;
use pmetrics::gate::forbidden;
use pmetrics::gate::parse_tenant_id;
use pmetrics::gate::render_tenant_id;
use pmetrics::gate::resolve_key;

fn quiet() -> Audit {
    Audit {
        level: ConcernLevel::Crisis,
        t: AuditTarget::Noop(),
    }
}

#[test]
fn classify_is_a_substring_rule() {
    assert_eq!(classify("/api/v1/measure"), PathClass::Protected);
    assert_eq!(classify("/api/v1/event"), PathClass::Protected);
    assert_eq!(classify("/healthz"), PathClass::Open);
    assert_eq!(classify("/"), PathClass::Open);
    assert_eq!(classify(""), PathClass::Open);
    // any occurrence of the letters counts, not only route prefixes
    assert_eq!(classify("/rapid"), PathClass::Protected);
    assert_eq!(classify("/ap"), PathClass::Open);
}

#[test]
fn resolve_key_is_deterministic_for_a_fixed_table() {
    let table = vec![("abc".to_string(), 7)];
    assert_eq!(resolve_key(&table, "abc"), Some(7));
    assert_eq!(resolve_key(&table, "abc"), Some(7));
    assert_eq!(resolve_key(&table, "nope"), None);
    assert_eq!(resolve_key(&table, "nope"), None);
}

#[test]
fn resolve_key_takes_the_first_matching_row() {
    let table = vec![
        ("abc".to_string(), 7),
        ("other".to_string(), 8),
        ("abc".to_string(), 9),
    ];
    assert_eq!(resolve_key(&table, "abc"), Some(7));
    assert_eq!(resolve_key(&table, "other"), Some(8));
}

#[test]
fn first_tenant_picks_the_first_row() {
    assert_eq!(first_tenant(&vec![]), None);
    assert_eq!(first_tenant(&vec![5]), Some(5));
    assert_eq!(first_tenant(&vec![5, 6]), Some(5));
}

#[test]
fn forbidden_is_403_with_fixed_body() {
    let r = forbidden();
    assert_eq!(r.status, 403);
    assert_eq!(r.body, "\"api key failure\"");
}

#[test]
fn protected_path_without_key_is_refused() {
    let aud = quiet();
    let table = vec![("abc".to_string(), 7)];
    let outcome = authenticate(&aud, "/api/v1/measure", None, |k: String| {
        resolve_key(&table, &k)
    });
    match outcome {
        AuthOutcome::Refused(resp) => {
            assert_eq!(resp.status, 403);
            assert_eq!(resp.body, "\"api key failure\"");
        }
        _ => panic!("expected a refusal"),
    }
}

#[test]
fn open_path_bypasses_whatever_the_headers() {
    let aud = quiet();
    let table = vec![("abc".to_string(), 7)];
    let no_key = authenticate(&aud, "/healthz", None, |k: String| resolve_key(&table, &k));
    assert!(matches!(no_key, AuthOutcome::Bypass));
    let bad_key = authenticate(&aud, "/healthz", Some("nope"), |k: String| {
        resolve_key(&table, &k)
    });
    assert!(matches!(bad_key, AuthOutcome::Bypass));
}

#[test]
fn known_key_is_granted_its_tenant() {
    let aud = quiet();
    let table = vec![("abc".to_string(), 7)];
    let outcome = authenticate(&aud, "/api/v1/event", Some("abc"), |k: String| {
        resolve_key(&table, &k)
    });
    match outcome {
        AuthOutcome::Granted(tid) => assert_eq!(tid, 7),
        _ => panic!("expected a grant"),
    }
}

#[test]
fn unknown_key_is_refused() {
    let aud = quiet();
    let table = vec![("abc".to_string(), 7)];
    let outcome = authenticate(&aud, "/api/v1/event", Some("nope"), |k: String| {
        resolve_key(&table, &k)
    });
    match outcome {
        AuthOutcome::Refused(resp) => assert_eq!(resp.status, 403),
        _ => panic!("expected a refusal"),
    }
}

#[test]
fn tenant_header_parses_decimal_text() {
    assert_eq!(parse_tenant_id("123"), Some(123));
    assert_eq!(parse_tenant_id("0"), Some(0));
    assert_eq!(parse_tenant_id("007"), Some(7));
    assert_eq!(parse_tenant_id("-45"), Some(-45));
    assert_eq!(parse_tenant_id("2147483647"), Some(i32::MAX));
    assert_eq!(parse_tenant_id("-2147483648"), Some(i32::MIN));
}

#[test]
fn tenant_header_rejects_non_numbers_and_overflow() {
    assert_eq!(parse_tenant_id(""), None);
    assert_eq!(parse_tenant_id("-"), None);
    assert_eq!(parse_tenant_id("12a"), None);
    assert_eq!(parse_tenant_id("a12"), None);
    assert_eq!(parse_tenant_id("1 2"), None);
    assert_eq!(parse_tenant_id("2147483648"), None);
    assert_eq!(parse_tenant_id("-2147483649"), None);
    assert_eq!(parse_tenant_id("99999999999999999999"), None);
}

#[test]
fn tenant_annotation_round_trips() {
    for tid in [0, 7, 42, -1, 1337, i32::MAX, i32::MIN] {
        let text = render_tenant_id(tid);
        assert_eq!(parse_tenant_id(&text), Some(tid));
    }
    assert_eq!(render_tenant_id(120), "120");
    assert_eq!(render_tenant_id(-5), "-5");
    assert_eq!(render_tenant_id(0), "0");
}
