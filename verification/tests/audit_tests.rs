use pmetrics::audit::Audit;
use pmetrics::audit::AuditTarget;
use pmetrics::audit::Concern;
use pmetrics::audit::ConcernLevel;
use pmetrics::audit::Event;
use pmetrics::audit::event;
use pmetrics::audit::eventw;
use pmetrics::audit::level_for_verbosity;
use pmetrics::audit::level_name;
use pmetrics::audit::render_line;

#[test]
fn test_newevent() {
    let gotten = event("a", "b");
    let expected = Event {
        time: gotten.time.clone(),
        data: vec![("a".to_string(), "b".to_string())],
    };
    assert_eq!(expected, gotten);
}

#[test]
fn test_newevent_w() {
    let gotten = eventw(&["a", "b", "c", "d"]);
    let expected = Event {
        time: gotten.time.clone(),
        data: vec![
            ("a".to_string(), "b".to_string()),
            ("c".to_string(), "d".to_string()),
        ],
    };
    assert_eq!(expected, gotten);
}

#[test]
fn test_target() {
    let a = Audit {
        level: ConcernLevel::Crisis,
        t: AuditTarget::Noop(),
    };
    a.tell(&Concern::Debug(event("a", "b")));
}

fn tagged(level: ConcernLevel) -> Concern {
    match level {
        ConcernLevel::Debug => Concern::Debug(event("k", "v")),
        ConcernLevel::Info => Concern::Info(event("k", "v")),
        ConcernLevel::Crisis => Concern::Crisis(event("k", "v")),
    }
}

#[test]
fn report_emits_iff_tag_at_least_threshold() {
    let levels = [ConcernLevel::Debug, ConcernLevel::Info, ConcernLevel::Crisis];
    let mut emitted = 0;
    let mut suppressed = 0;
    for (ti, threshold) in levels.iter().enumerate() {
        for (gi, tag) in levels.iter().enumerate() {
            let a = Audit::new(*threshold);
            let out = a.tell(&tagged(*tag));
            assert_eq!(out, gi >= ti);
            if out {
                emitted += 1;
            } else {
                suppressed += 1;
            }
        }
    }
    assert_eq!(emitted, 6);
    assert_eq!(suppressed, 3);
}

#[test]
fn noop_target_never_emits() {
    let a = Audit {
        level: ConcernLevel::Debug,
        t: AuditTarget::Noop(),
    };
    assert!(!a.tell(&Concern::Crisis(event("k", "v"))));
    assert!(!a.debug(event("k", "v")));
    assert!(!a.info(event("k", "v")));
    assert!(!a.crisis(event("k", "v")));
}

#[test]
fn convenience_forms_match_report() {
    let a = Audit {
        level: ConcernLevel::Info,
        t: AuditTarget::Noop(),
    };
    assert!(!a.debug(event("k", "v")));
    let b = Audit {
        level: ConcernLevel::Info,
        t: AuditTarget::Stderr(),
    };
    assert!(!b.debug(event("k", "v")));
    assert!(b.info(event("k", "v")));
    assert!(b.crisis(event("k", "v")));
}

#[test]
fn pretty_joins_pairs_with_two_spaces() {
    let e = eventw(&["a", "b", "c", "d"]);
    assert_eq!(e.pretty(), "a=b  c=d  ");
    let single = event("x", "y");
    assert_eq!(single.pretty(), "x=y  ");
    let empty = eventw(&[]);
    assert_eq!(empty.pretty(), "");
}

#[test]
fn newvec_drops_trailing_key_without_value() {
    let e = eventw(&["a", "b", "odd"]);
    assert_eq!(e.data.len(), 1);
    assert_eq!(e.data[0], ("a".to_string(), "b".to_string()));
}

#[test]
fn rendered_line_carries_level_and_pairs() {
    let c = Concern::Info(event("status", "rx"));
    let line = render_line(&c);
    assert!(line.ends_with(": INFO: status=rx  "));
}

#[test]
fn level_names() {
    assert_eq!(level_name(ConcernLevel::Debug), "DEBUG");
    assert_eq!(level_name(ConcernLevel::Info), "INFO");
    assert_eq!(level_name(ConcernLevel::Crisis), "CRISIS");
}

#[test]
fn verbosity_maps_to_threshold() {
    assert_eq!(level_for_verbosity(0), ConcernLevel::Crisis);
    assert_eq!(level_for_verbosity(1), ConcernLevel::Info);
    assert_eq!(level_for_verbosity(2), ConcernLevel::Debug);
    assert_eq!(level_for_verbosity(5), ConcernLevel::Debug);
}
