use std::cell::RefCell;

use pmetrics::audit::Audit;
use pmetrics::audit::AuditTarget;
use pmetrics::audit::ConcernLevel;
use pmetrics::gate::AuthOutcome;
use pmetrics::gate::authenticate;
use pmetrics::gate::resolve_key;
use pmetrics::ingest::StoreError;
use pmetrics::ingest::ingest_event;
use pmetrics::ingest::ingest_measure;
use pmetrics::record::MeasureRecord;

fn quiet() -> Audit {
    Audit {
        level: ConcernLevel::Crisis,
        t: AuditTarget::Noop(),
    }
}

#[test]
fn unparsable_body_is_rejected_and_never_written() {
    let aud = quiet();
    let calls = RefCell::new(0u32);
    let r = ingest_measure(&aud, 7, Some("{not json"), |_tid, _m: MeasureRecord| {
        *calls.borrow_mut() += 1;
        Ok(1)
    });
    assert_eq!(r.status, 400);
    assert_eq!(r.body, "bad parse and cast");
    assert_eq!(*calls.borrow(), 0);
}

#[test]
fn unreadable_body_is_rejected_and_never_written() {
    let aud = quiet();
    let calls = RefCell::new(0u32);
    let r = ingest_measure(&aud, 7, None, |_tid, _m: MeasureRecord| {
        *calls.borrow_mut() += 1;
        Ok(1)
    });
    assert_eq!(r.status, 400);
    assert_eq!(r.body, "unable to read string");
    assert_eq!(*calls.borrow(), 0);
}

#[test]
fn failing_write_is_a_bad_gateway() {
    let aud = quiet();
    let body = "{\"name\":\"cpu\",\"measurement\":0.92,\"dict\":{}}";
    let r = ingest_measure(&aud, 7, Some(body), |_tid, _m: MeasureRecord| {
        Err(StoreError::Backend("insert refused".to_string()))
    });
    assert_eq!(r.status, 502);
    assert_eq!(r.body, "server error");
}

#[test]
fn successful_write_is_ok() {
    let aud = quiet();
    let body = "{\"name\":\"cpu\",\"measurement\":0.92,\"dict\":{}}";
    let seen = RefCell::new(Vec::new());
    let r = ingest_measure(&aud, 7, Some(body), |tid, m: MeasureRecord| {
        seen.borrow_mut().push((tid, m.name, m.measurement, m.dict));
        Ok(1)
    });
    assert_eq!(r.status, 200);
    assert_eq!(r.body, "ok");
    let seen = seen.into_inner();
    assert_eq!(seen.len(), 1);
    assert_eq!(
        seen[0],
        (7, "cpu".to_string(), "0.92".to_string(), "{}".to_string())
    );
}

#[test]
fn measure_shape_is_validated() {
    let aud = quiet();
    let never = |_tid: i32, _m: MeasureRecord| -> Result<u64, StoreError> {
        panic!("the write function must not run");
    };
    // missing measurement
    let r = ingest_measure(&aud, 7, Some("{\"name\":\"cpu\",\"dict\":{}}"), never);
    assert_eq!(r.status, 400);
    // measurement is not a number
    let r = ingest_measure(
        &aud,
        7,
        Some("{\"name\":\"cpu\",\"measurement\":\"x\",\"dict\":{}}"),
        never,
    );
    assert_eq!(r.status, 400);
    // name is not a string
    let r = ingest_measure(
        &aud,
        7,
        Some("{\"name\":3,\"measurement\":1,\"dict\":{}}"),
        never,
    );
    assert_eq!(r.status, 400);
    // top level is not an object
    let r = ingest_measure(&aud, 7, Some("[1,2]"), never);
    assert_eq!(r.status, 400);
}

#[test]
fn event_body_round_trips_its_attributes() {
    let aud = quiet();
    let body = "{\"name\":\"deploy\",\"dict\":{\"a\":1}}";
    let seen = RefCell::new(Vec::new());
    let r = ingest_event(&aud, 9, Some(body), |tid, e| {
        seen.borrow_mut().push((tid, e.name, e.dict));
        Ok(1)
    });
    assert_eq!(r.status, 200);
    let seen = seen.into_inner();
    assert_eq!(
        seen[0],
        (9, "deploy".to_string(), "{\"a\":1}".to_string())
    );
}

#[test]
fn post_then_query_round_trip() {
    // the full spine against an in-memory store: authenticate, ingest,
    // then read back newest first as the query surface does
    let aud = quiet();
    let keys = vec![("tenant-key".to_string(), 7)];
    let outcome = authenticate(&aud, "/api/v1/measure", Some("tenant-key"), |k: String| {
        resolve_key(&keys, &k)
    });
    let tid = match outcome {
        AuthOutcome::Granted(tid) => tid,
        _ => panic!("the key is registered"),
    };
    assert_eq!(tid, 7);

    let store: RefCell<Vec<(i32, String, f64, String)>> = RefCell::new(Vec::new());
    let body = "{\"name\":\"cpu\",\"measurement\":0.92,\"dict\":{}}";
    let r = ingest_measure(&aud, tid, Some(body), |tid, m: MeasureRecord| {
        let measurement: f64 = m.measurement.parse().map_err(|_| {
            StoreError::Backend("not a double".to_string())
        })?;
        store.borrow_mut().push((tid, m.name, measurement, m.dict));
        Ok(1)
    });
    assert_eq!(r.status, 200);
    assert_eq!(r.body, "ok");

    let store = store.into_inner();
    let newest_first: Vec<&(i32, String, f64, String)> = store
        .iter()
        .rev()
        .filter(|row| row.0 == tid)
        .collect();
    assert_eq!(newest_first[0].1, "cpu");
    assert_eq!(newest_first[0].2, 0.92);
}
