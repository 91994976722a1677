//! The two unauthenticated service endpoints.

use vstd::prelude::*;

use crate::audit::Audit;
use crate::audit::event;
use crate::response::Response;

verus! {

/// The liveness probe: reports itself at Info and answers 200 "ok". It
/// does not check store liveness.
pub fn healthz(aud: &Audit) -> (r: Response)
    ensures
        r.status == 200,
        r.body@ == "ok"@,
{
    aud.info(event("healthz", "true"));
    Response::of(200, "ok")
}

/// The request-logging middleware: reports each request's method and path,
/// and the caller's key when one was sent, at Info severity.
pub fn log_request(aud: &Audit, method: &str, path: &str, key: Option<&str>) -> (emitted: bool)
    ensures
        emitted == aud.spec_emits(crate::audit::ConcernLevel::Info),
{
    match key {
        Some(key) => crate::audit::info(
            aud,
            &["module", "web", "method", method, "url", path, "apikey", key],
        ),
        None => crate::audit::info(aud, &["module", "web", "method", method, "url", path]),
    }
}

/// The index page: a constant welcome.
pub fn index() -> (r: Response)
    ensures
        r.status == 200,
        r.body@ == "welcome to nickel'd pmetrics"@,
{
    Response::of(200, "welcome to nickel'd pmetrics")
}

} // verus!
