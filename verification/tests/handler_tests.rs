use pmetrics::audit::Audit;
use pmetrics::audit::AuditTarget;
use pmetrics::audit::ConcernLevel;
use pmetrics::handlers::healthz;
use pmetrics::handlers::index;
use pmetrics::response::Response;

#[test]
fn healthz_answers_ok() {
    let aud = Audit {
        level: ConcernLevel::Crisis,
        t: AuditTarget::Noop(),
    };
    let r = healthz(&aud);
    assert_eq!(r.status, 200);
    assert_eq!(r.body, "ok");
}

#[test]
fn index_answers_the_welcome_text() {
    let r = index();
    assert_eq!(r.status, 200);
    assert_eq!(r.body, "welcome to nickel'd pmetrics");
}

#[test]
fn response_carries_status_and_body() {
    let r = Response::of(502, "server error");
    assert_eq!(r.status, 502);
    assert_eq!(r.body, "server error");
}

#[test]
fn log_request_reports_at_info() {
    let noisy = Audit {
        level: ConcernLevel::Info,
        t: AuditTarget::Stderr(),
    };
    assert!(pmetrics::handlers::log_request(&noisy, "GET", "/api/v1/event", Some("k")));
    assert!(pmetrics::handlers::log_request(&noisy, "GET", "/", None));
    let muted = Audit {
        level: ConcernLevel::Crisis,
        t: AuditTarget::Stderr(),
    };
    assert!(!pmetrics::handlers::log_request(&muted, "GET", "/", None));
}

#[test]
fn info_helper_reports_at_info() {
    let noisy = Audit {
        level: ConcernLevel::Debug,
        t: AuditTarget::Stderr(),
    };
    assert!(pmetrics::audit::info(&noisy, &["module", "web"]));
}
