//! The generic ingestion path: validate, persist, classify.
//!
//! One inbound unit of work (an HTTP body or one polled record) is turned
//! into exactly one terminal `(status, body)` outcome. The path is generic
//! over the record type and over a tenant-scoped write function supplied by
//! the store adapter; every failure class maps to a fixed response and is
//! reported to the audit sink before the response is returned. The path
//! itself never retries: each record's write is attempted at most once.

use vstd::prelude::*;

use crate::audit::Audit;
use crate::audit::eventw;
use crate::record::EventRecord;
use crate::record::MeasureRecord;
use crate::record::event_of;
use crate::record::measure_of;
use crate::record::parse_event;
use crate::record::parse_measure;
use crate::response::Response;

verus! {

/// Failure of a record write at the store; the text is the store's own
/// account of why.
#[derive(Debug)]
pub enum StoreError {
    Backend(String),
}

/// Why no record could be obtained from the inbound unit of work.
#[derive(Copy, Clone, Debug, PartialEq, Eq, Structural)]
pub enum InputFault {
    /// The raw bytes could not be read at all.
    Unreadable,
    /// The bytes did not deserialize as the expected record shape.
    Malformed,
}

/// The uniform persist-and-classify step, generic over the record type and
/// the tenant-scoped write function. An unreadable input yields
/// `(400, "unable to read string")`; a malformed one
/// `(400, "bad parse and cast")`; a failed write
/// `(502, "server error")`, reported at Debug with the store's detail and
/// at Info without it; a successful write `(200, "ok")`. Each failure class
/// is reported to the audit sink before the response is returned, and the
/// write is attempted exactly once per parsed record.
pub fn ingest<T, F: Fn(i32, T) -> Result<u64, StoreError>>(
    aud: &Audit,
    tid: i32,
    input: Result<T, InputFault>,
    write: F,
) -> (r: Response)
    requires
        forall|a: (i32, T)| #[trigger] call_requires(write, a),
    ensures
        input matches Err(InputFault::Unreadable) ==> r.status == 400 && r.body@
            == "unable to read string"@,
        input matches Err(InputFault::Malformed) ==> r.status == 400 && r.body@
            == "bad parse and cast"@,
        input matches Ok(t) ==> (exists|wr: Result<u64, StoreError>|
            #[trigger] call_ensures(write, (tid, t), wr) && ((wr is Ok && r.status == 200 && r.body@
                == "ok"@) || (wr is Err && r.status == 502 && r.body@ == "server error"@))),
{
    match input {
        Err(InputFault::Unreadable) => {
            aud.info(eventw(&["error", "true", "module", "web", "class", "string read"]));
            Response::of(400, "unable to read string")
        },
        Err(InputFault::Malformed) => {
            aud.info(eventw(&["error", "true", "module", "web", "class", "deserialize/parse"]));
            Response::of(400, "bad parse and cast")
        },
        Ok(t) => {
            let ghost gt = t;
            let wr = write(tid, t);
            let ghost gwr = wr;
            match wr {
                Ok(_) => Response::of(200, "ok"),
                Err(err) => {
                    let detail = match err {
                        StoreError::Backend(s) => s,
                    };
                    aud.debug(
                        eventw(
                            &[
                                "error",
                                "true",
                                "module",
                                "web",
                                "class",
                                "db insert",
                                "details",
                                detail.as_str(),
                            ],
                        ),
                    );
                    aud.info(eventw(&["error", "true", "module", "web", "class", "db insert"]));
                    Response::of(502, "server error")
                },
            }
        },
    }
}

/// Ingests one measure body: deserializes it, writes it under the tenant,
/// and classifies the outcome as `ingest` does. `body` is the raw text the
/// edge read, or nothing when the read itself failed.
pub fn ingest_measure<F: Fn(i32, MeasureRecord) -> Result<u64, StoreError>>(
    aud: &Audit,
    tid: i32,
    body: Option<&str>,
    write: F,
) -> (r: Response)
    requires
        forall|a: (i32, MeasureRecord)| #[trigger] call_requires(write, a),
    ensures
        body is None ==> r.status == 400 && r.body@ == "unable to read string"@,
        (body is Some && measure_of(body->0@) is None) ==> r.status == 400 && r.body@
            == "bad parse and cast"@,
        (body is Some && measure_of(body->0@) is Some) ==> (exists|
            rec: MeasureRecord,
            wr: Result<u64, StoreError>,
        |
            Some(rec@) == measure_of(body->0@) && #[trigger] call_ensures(write, (tid, rec), wr)
                && ((wr is Ok && r.status == 200 && r.body@ == "ok"@) || (wr is Err && r.status
                == 502 && r.body@ == "server error"@))),
{
    let input: Result<MeasureRecord, InputFault> = match body {
        None => Err(InputFault::Unreadable),
        Some(s) => match parse_measure(s) {
            Some(rec) => Ok(rec),
            None => Err(InputFault::Malformed),
        },
    };
    let ghost ginput = input;
    ingest(aud, tid, input, write)
}

/// Ingests one event body: deserializes it, writes it under the tenant,
/// and classifies the outcome as `ingest` does. `body` is the raw text the
/// edge read, or nothing when the read itself failed.
pub fn ingest_event<F: Fn(i32, EventRecord) -> Result<u64, StoreError>>(
    aud: &Audit,
    tid: i32,
    body: Option<&str>,
    write: F,
) -> (r: Response)
    requires
        forall|a: (i32, EventRecord)| #[trigger] call_requires(write, a),
    ensures
        body is None ==> r.status == 400 && r.body@ == "unable to read string"@,
        (body is Some && event_of(body->0@) is None) ==> r.status == 400 && r.body@
            == "bad parse and cast"@,
        (body is Some && event_of(body->0@) is Some) ==> (exists|
            rec: EventRecord,
            wr: Result<u64, StoreError>,
        |
            Some(rec@) == event_of(body->0@) && #[trigger] call_ensures(write, (tid, rec), wr) && ((
            wr is Ok && r.status == 200 && r.body@ == "ok"@) || (wr is Err && r.status == 502
                && r.body@ == "server error"@))),
{
    let input: Result<EventRecord, InputFault> = match body {
        None => Err(InputFault::Unreadable),
        Some(s) => match parse_event(s) {
            Some(rec) => Ok(rec),
            None => Err(InputFault::Malformed),
        },
    };
    let ghost ginput = input;
    ingest(aud, tid, input, write)
}

} // verus!
