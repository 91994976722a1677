//! The polled-ingestion loop body.
//!
//! A standalone consumer polls a local stream once a second under one
//! pre-resolved tenant. The loop itself — reading, sleeping, repeating —
//! lives at the edge; this module decides what one iteration does with
//! what was read: nothing for an empty read, a Crisis report for a batch
//! that does not parse, and otherwise one write per record, in batch
//! order, stopping at the first failed write. A failure only ends the
//! iteration; the loop goes on.

use vstd::prelude::*;

use crate::audit::Audit;
use crate::audit::event;
use crate::audit::eventw;
use crate::ingest::StoreError;
use crate::record::EventRecord;
use crate::record::MeasureRecord;
use crate::record::PipeModel;
use crate::record::PipeRecord;
use crate::record::batch_model;
use crate::record::parse_batch;

verus! {

/// What one poll of the source produced.
pub enum ReadEvent {
    /// The read itself failed; the text is the I/O error's account.
    Fault { detail: String },
    /// Zero bytes were available.
    Quiet,
    /// The bytes that were read.
    Payload { text: String },
}

/// What one loop iteration did.
#[derive(Copy, Clone, Debug, PartialEq, Eq, Structural)]
pub enum StepOutcome {
    /// Nothing was read: no report, no write.
    Idle,
    /// The read failed; reported at Info.
    ReadError,
    /// The bytes did not parse as a batch; reported at Crisis, nothing
    /// written.
    BadBatch,
    /// Every record of the batch was written, in order.
    Wrote(usize),
    /// The write of the record at this index failed; records before it
    /// stayed written, the rest were not attempted.
    WriteFault(usize),
}

/// A measure with this shape was accepted by the write function.
pub open spec fn measure_written<FM: Fn(i32, MeasureRecord) -> Result<u64, StoreError>>(
    wm: FM,
    tid: i32,
    m: (Seq<char>, Seq<char>, Seq<char>),
) -> bool {
    exists|rec: MeasureRecord, n: u64|
        rec@ == m && #[trigger] call_ensures(wm, (tid, rec), Ok::<u64, StoreError>(n))
}

/// An event with this shape was accepted by the write function.
pub open spec fn event_written<FE: Fn(i32, EventRecord) -> Result<u64, StoreError>>(
    we: FE,
    tid: i32,
    e: (Seq<char>, Seq<char>),
) -> bool {
    exists|rec: EventRecord, n: u64|
        rec@ == e && #[trigger] call_ensures(we, (tid, rec), Ok::<u64, StoreError>(n))
}

/// A record with this shape was accepted by the write function of its kind.
pub open spec fn record_written<
    FM: Fn(i32, MeasureRecord) -> Result<u64, StoreError>,
    FE: Fn(i32, EventRecord) -> Result<u64, StoreError>,
>(wm: FM, we: FE, tid: i32, m: PipeModel) -> bool {
    match m {
        PipeModel::M(t) => measure_written(wm, tid, t),
        PipeModel::E(t) => event_written(we, tid, t),
    }
}

/// A record with this shape was refused by the write function of its kind.
pub open spec fn record_write_failed<
    FM: Fn(i32, MeasureRecord) -> Result<u64, StoreError>,
    FE: Fn(i32, EventRecord) -> Result<u64, StoreError>,
>(wm: FM, we: FE, tid: i32, m: PipeModel) -> bool {
    match m {
        PipeModel::M(t) => (exists|rec: MeasureRecord, wr: Result<u64, StoreError>|
            rec@ == t && #[trigger] call_ensures(wm, (tid, rec), wr) && wr is Err),
        PipeModel::E(t) => (exists|rec: EventRecord, wr: Result<u64, StoreError>|
            rec@ == t && #[trigger] call_ensures(we, (tid, rec), wr) && wr is Err),
    }
}

/// One iteration of the polled-ingestion loop, under a pre-resolved tenant.
/// An empty read does nothing at all. A read fault is reported at Info. A
/// payload is reported at Info as received, then parsed as a batch: a parse
/// failure is reported at Crisis and nothing is written; a parsed batch is
/// written record by record in order, each success reported at Info, and a
/// failed write — reported at Debug with the store's detail and at Info
/// without it — ends the iteration with the records before it written and
/// the rest not attempted.
pub fn pipe_step<
    FM: Fn(i32, MeasureRecord) -> Result<u64, StoreError>,
    FE: Fn(i32, EventRecord) -> Result<u64, StoreError>,
>(aud: &Audit, tid: i32, ev: ReadEvent, write_measure: FM, write_event: FE) -> (r: StepOutcome)
    requires
        forall|a: (i32, MeasureRecord)| #[trigger] call_requires(write_measure, a),
        forall|a: (i32, EventRecord)| #[trigger] call_requires(write_event, a),
    ensures
        ev is Quiet ==> r is Idle,
        ev is Fault ==> r is ReadError,
        (ev is Payload && batch_model(ev->text@) is None) ==> r is BadBatch,
        (ev is Payload && batch_model(ev->text@) is Some) ==> (match r {
            StepOutcome::Wrote(n) => n == batch_model(ev->text@).unwrap().len() && (forall|j: int|
                0 <= j < n ==> record_written(
                    write_measure,
                    write_event,
                    tid,
                    #[trigger] batch_model(ev->text@).unwrap()[j],
                )),
            StepOutcome::WriteFault(i) => i < batch_model(ev->text@).unwrap().len()
                && record_write_failed(
                write_measure,
                write_event,
                tid,
                batch_model(ev->text@).unwrap()[i as int],
            ) && (forall|j: int|
                0 <= j < i ==> record_written(
                    write_measure,
                    write_event,
                    tid,
                    #[trigger] batch_model(ev->text@).unwrap()[j],
                )),
            _ => false,
        }),
{
    match ev {
        ReadEvent::Quiet => StepOutcome::Idle,
        ReadEvent::Fault { detail } => {
            aud.info(event("err", detail.as_str()));
            StepOutcome::ReadError
        },
        ReadEvent::Payload { text } => {
            aud.info(event("status", "rx"));
            match parse_batch(text.as_str()) {
                Err(e) => {
                    aud.crisis(event("err", e.as_str()));
                    StepOutcome::BadBatch
                },
                Ok(records) => {
                    let ghost model = batch_model(text@).unwrap();
                    let total = records.len();
                    let mut rest = records;
                    let mut i: usize = 0;
                    while i < total
                        invariant
                            forall|a: (i32, MeasureRecord)| #[trigger]
                                call_requires(write_measure, a),
                            forall|a: (i32, EventRecord)| #[trigger] call_requires(write_event, a),
                            i <= total,
                            total == model.len(),
                            ev is Payload,
                            ev->text@ == text@,
                            batch_model(text@) == Some(model),
                            rest@.len() == total - i,
                            rest.deep_view() =~= model.skip(i as int),
                            forall|j: int|
                                0 <= j < i ==> record_written(
                                    write_measure,
                                    write_event,
                                    tid,
                                    #[trigger] model[j],
                                ),
                        decreases total - i,
                    {
                        let ghost rest_old = rest;
                        let rec = rest.remove(0);
                        proof {
                            assert(rest_old.deep_view()[0] == rec.deep_view());
                            assert(rec@ == model[i as int]);
                            assert(rest@ =~= rest_old@.subrange(1, rest_old@.len() as int));
                            assert forall|j: int| 0 <= j < rest@.len() implies rest.deep_view()[j]
                                == model.skip(i as int + 1)[j] by {
                                assert(rest@[j] == rest_old@[j + 1]);
                                assert(rest_old.deep_view()[j + 1] == rest_old@[j + 1].deep_view());
                                assert(rest_old.deep_view()[j + 1] == model.skip(i as int)[j + 1]);
                            }
                            assert(rest.deep_view() =~= model.skip(i as int + 1));
                        }
                        let ghost grec = rec;
                        let wr = match rec {
                            PipeRecord::M(m) => {
                                let ghost gm = m;
                                let out = write_measure(tid, m);
                                proof {
                                    match out {
                                        Ok(n) => {
                                            assert(call_ensures(
                                                write_measure,
                                                (tid, gm),
                                                Ok::<u64, StoreError>(n),
                                            ));
                                            assert(measure_written(write_measure, tid, gm@));
                                            assert(record_written(
                                                write_measure,
                                                write_event,
                                                tid,
                                                model[i as int],
                                            ));
                                        },
                                        Err(_) => {
                                            assert(call_ensures(write_measure, (tid, gm), out));
                                            assert(record_write_failed(
                                                write_measure,
                                                write_event,
                                                tid,
                                                model[i as int],
                                            ));
                                        },
                                    }
                                }
                                out
                            },
                            PipeRecord::E(e) => {
                                let ghost ge = e;
                                let out = write_event(tid, e);
                                proof {
                                    match out {
                                        Ok(n) => {
                                            assert(call_ensures(
                                                write_event,
                                                (tid, ge),
                                                Ok::<u64, StoreError>(n),
                                            ));
                                            assert(event_written(write_event, tid, ge@));
                                            assert(record_written(
                                                write_measure,
                                                write_event,
                                                tid,
                                                model[i as int],
                                            ));
                                        },
                                        Err(_) => {
                                            assert(call_ensures(write_event, (tid, ge), out));
                                            assert(record_write_failed(
                                                write_measure,
                                                write_event,
                                                tid,
                                                model[i as int],
                                            ));
                                        },
                                    }
                                }
                                out
                            },
                        };
                        match wr {
                            Ok(_) => {
                                aud.info(event("status", "written"));
                            },
                            Err(err) => {
                                let detail = match err {
                                    StoreError::Backend(s) => s,
                                };
                                aud.debug(
                                    eventw(
                                        &[
                                            "error",
                                            "true",
                                            "module",
                                            "pipe",
                                            "class",
                                            "db insert",
                                            "details",
                                            detail.as_str(),
                                        ],
                                    ),
                                );
                                aud.info(
                                    eventw(
                                        &["error", "true", "module", "pipe", "class", "db insert"],
                                    ),
                                );
                                return StepOutcome::WriteFault(i);
                            },
                        }
                        i += 1;
                    }
                    StepOutcome::Wrote(total)
                },
            }
        },
    }
}

} // verus!
