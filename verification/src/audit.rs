//! Severity-filtered structured event reporting.
//!
//! An `Audit` value pairs a severity threshold with a target sink. Every
//! other component reports leveled occurrences (`Concern`s) through it; a
//! concern reaches the sink exactly when its tag is at least the threshold
//! under the total order Debug < Info < Crisis. The value is constructed
//! once at process start and then threaded by copy into every component.

use std::io::Write;

use vstd::prelude::*;
use vstd::slice::slice_index_get;

verus! {

/// Severity of a reported occurrence, and also a reporting threshold.
/// Totally ordered: Debug < Info < Crisis.
#[derive(Copy, Clone, Debug, PartialEq, Eq, Structural)]
pub enum ConcernLevel {
    Debug,
    Info,
    Crisis,
}

/// Position of a level in the total order Debug < Info < Crisis.
pub open spec fn severity(l: ConcernLevel) -> int {
    match l {
        ConcernLevel::Debug => 0,
        ConcernLevel::Info => 1,
        ConcernLevel::Crisis => 2,
    }
}

/// The filtering policy, stated threshold by threshold as the sink applies
/// it: a Debug threshold passes everything; an Info threshold drops only
/// Debug-tagged concerns; a Crisis threshold passes only Crisis-tagged ones.
pub open spec fn passes(threshold: ConcernLevel, tag: ConcernLevel) -> bool {
    match threshold {
        ConcernLevel::Debug => true,
        ConcernLevel::Info => !(tag is Debug),
        ConcernLevel::Crisis => tag is Crisis,
    }
}

/// The threshold-by-threshold policy is exactly "pass iff tag >= threshold"
/// under the total order on levels.
pub proof fn lemma_passes_is_order(threshold: ConcernLevel, tag: ConcernLevel)
    ensures
        passes(threshold, tag) <==> severity(tag) >= severity(threshold),
{
}

/// Runtime form of the filter; equal to `passes` on every pair of levels.
pub fn level_passes(threshold: ConcernLevel, tag: ConcernLevel) -> (r: bool)
    ensures
        r == passes(threshold, tag),
{
    match threshold {
        ConcernLevel::Debug => true,
        ConcernLevel::Info => !matches!(tag, ConcernLevel::Debug),
        ConcernLevel::Crisis => matches!(tag, ConcernLevel::Crisis),
    }
}

/// Maps the operator-supplied verbosity count to a reporting threshold:
/// quiet runs report only crises, one step adds Info, two or more add Debug.
pub fn level_for_verbosity(occurrences: u8) -> (l: ConcernLevel)
    ensures
        occurrences == 0 ==> l is Crisis,
        occurrences == 1 ==> l is Info,
        occurrences >= 2 ==> l is Debug,
{
    if occurrences == 0 {
        ConcernLevel::Crisis
    } else if occurrences == 1 {
        ConcernLevel::Info
    } else {
        ConcernLevel::Debug
    }
}

/// One auditable occurrence: a creation instant plus an ordered list of
/// key/value pairs. Keys may repeat; insertion order is kept for display.
#[derive(Debug)]
pub struct Event {
    pub time: String,
    pub data: Vec<(String, String)>,
}

/// Space-joined `key=value` rendering of the pairs, two spaces after each.
pub open spec fn pretty_spec(data: Seq<(String, String)>) -> Seq<char>
    decreases data.len(),
{
    if data.len() == 0 {
        Seq::<char>::empty()
    } else {
        pretty_spec(data.drop_last()) + data.last().0@ + "="@ + data.last().1@ + "  "@
    }
}

impl Event {
    /// A fresh event holding a single key/value pair, stamped with the
    /// current instant.
    pub fn new(k: &str, v: &str) -> (e: Event)
        ensures
            e.data@.len() == 1,
            e.data@[0].0@ == k@,
            e.data@[0].1@ == v@,
    {
        let mut data: Vec<(String, String)> = Vec::new();
        data.push((k.to_owned(), v.to_owned()));
        Event { time: now_stamp(), data }
    }

    /// A fresh event from a flat key/value list: element `2i` is the key of
    /// pair `i` and element `2i + 1` its value. A trailing key without a
    /// value is dropped.
    pub fn newvec(pairs: &[&str]) -> (e: Event)
        ensures
            e.data@.len() == pairs@.len() / 2,
            forall|i: int|
                0 <= i < e.data@.len() ==> (#[trigger] e.data@[i]).0@ == pairs@[2 * i]@
                    && e.data@[i].1@ == pairs@[2 * i + 1]@,
    {
        let mut kvs: Vec<(String, String)> = Vec::new();
        let mut i: usize = 0;
        while i + 1 < pairs.len()
            invariant
                i % 2 == 0,
                i <= pairs@.len(),
                kvs@.len() == i / 2,
                forall|j: int|
                    0 <= j < kvs@.len() ==> (#[trigger] kvs@[j]).0@ == pairs@[2 * j]@
                        && kvs@[j].1@ == pairs@[2 * j + 1]@,
            decreases pairs@.len() - i,
        {
            let k = slice_index_get(pairs, i);
            let v = slice_index_get(pairs, i + 1);
            kvs.push(((*k).to_owned(), (*v).to_owned()));
            i += 2;
        }
        proof {
            if pairs@.len() % 2 == 0 {
                assert(i == pairs@.len());
            } else {
                assert(i == pairs@.len() - 1);
            }
            assert(kvs@.len() == pairs@.len() / 2);
        }
        Event { time: now_stamp(), data: kvs }
    }

    /// Renders the pairs as space-joined `key=value` text.
    pub fn pretty(&self) -> (r: String)
        ensures
            r@ == pretty_spec(self.data@),
    {
        let mut res = String::new();
        let mut i: usize = 0;
        while i < self.data.len()
            invariant
                i <= self.data@.len(),
                res@ == pretty_spec(self.data@.subrange(0, i as int)),
            decreases self.data@.len() - i,
        {
            res.append(self.data[i].0.as_str());
            res.append("=");
            res.append(self.data[i].1.as_str());
            res.append("  ");
            proof {
                let prefix = self.data@.subrange(0, (i + 1) as int);
                assert(prefix.drop_last() =~= self.data@.subrange(0, i as int));
                assert(prefix.last() == self.data@[i as int]);
                assert(res@ =~= pretty_spec(prefix));
            }
            i += 1;
        }
        proof {
            assert(self.data@.subrange(0, self.data@.len() as int) =~= self.data@);
        }
        res
    }
}

impl PartialEq for Event {
    fn eq(&self, other: &Event) -> (r: bool) {
        if !(self.time == other.time) {
            return false;
        }
        if self.data.len() != other.data.len() {
            return false;
        }
        let mut i: usize = 0;
        while i < self.data.len()
            invariant
                i <= self.data@.len(),
                self.data@.len() == other.data@.len(),
                forall|j: int|
                    0 <= j < i ==> (#[trigger] self.data@[j]).0@ == other.data@[j].0@
                        && self.data@[j].1@ == other.data@[j].1@,
            decreases self.data@.len() - i,
        {
            if !(self.data[i].0 == other.data[i].0) {
                return false;
            }
            if !(self.data[i].1 == other.data[i].1) {
                return false;
            }
            i += 1;
        }
        true
    }
}

impl vstd::std_specs::cmp::PartialEqSpecImpl for Event {
    open spec fn obeys_eq_spec() -> bool {
        true
    }

    open spec fn eq_spec(&self, other: &Event) -> bool {
        self.time@ == other.time@ && self.data@.len() == other.data@.len() && forall|j: int|
            0 <= j < self.data@.len() ==> (#[trigger] self.data@[j]).0@ == other.data@[j].0@
                && self.data@[j].1@ == other.data@[j].1@
    }
}

/// A fresh single-pair event; shorthand for `Event::new`.
pub fn event(k: &str, v: &str) -> (e: Event)
    ensures
        e.data@.len() == 1,
        e.data@[0].0@ == k@,
        e.data@[0].1@ == v@,
{
    Event::new(k, v)
}

/// A fresh event from a flat key/value list; shorthand for `Event::newvec`.
pub fn eventw(kvs: &[&str]) -> (e: Event)
    ensures
        e.data@.len() == kvs@.len() / 2,
        forall|i: int|
            0 <= i < e.data@.len() ==> (#[trigger] e.data@[i]).0@ == kvs@[2 * i]@
                && e.data@[i].1@ == kvs@[2 * i + 1]@,
{
    Event::newvec(kvs)
}

/// A reported occurrence: a severity tag wrapped around an event payload.
pub enum Concern {
    Debug(Event),
    Info(Event),
    Crisis(Event),
}

impl Concern {
    /// The severity tag of this concern.
    pub open spec fn tag(&self) -> ConcernLevel {
        match self {
            Concern::Debug(_) => ConcernLevel::Debug,
            Concern::Info(_) => ConcernLevel::Info,
            Concern::Crisis(_) => ConcernLevel::Crisis,
        }
    }

    /// The event payload of this concern.
    pub open spec fn payload(&self) -> Event {
        match self {
            Concern::Debug(e) => *e,
            Concern::Info(e) => *e,
            Concern::Crisis(e) => *e,
        }
    }

    /// Runtime form of `tag`.
    pub fn tag_of(&self) -> (t: ConcernLevel)
        ensures
            t == self.tag(),
    {
        match self {
            Concern::Debug(_) => ConcernLevel::Debug,
            Concern::Info(_) => ConcernLevel::Info,
            Concern::Crisis(_) => ConcernLevel::Crisis,
        }
    }
}

/// The display name of a severity level.
pub fn level_name(l: ConcernLevel) -> (r: &'static str)
    ensures
        r@ == name_spec(l),
{
    match l {
        ConcernLevel::Debug => "DEBUG",
        ConcernLevel::Info => "INFO",
        ConcernLevel::Crisis => "CRISIS",
    }
}

/// The display name of a severity level.
pub open spec fn name_spec(l: ConcernLevel) -> Seq<char> {
    match l {
        ConcernLevel::Debug => "DEBUG"@,
        ConcernLevel::Info => "INFO"@,
        ConcernLevel::Crisis => "CRISIS"@,
    }
}

/// One emitted line: `<timestamp>: <LEVEL-NAME>: <key=value pairs>`.
pub open spec fn line_spec(c: Concern) -> Seq<char> {
    c.payload().time@ + ": "@ + name_spec(c.tag()) + ": "@ + pretty_spec(c.payload().data@)
}

/// Renders a concern as the single line the error-stream sink writes.
pub fn render_line(c: &Concern) -> (r: String)
    ensures
        r@ == line_spec(*c),
{
    let e = match c {
        Concern::Debug(e) => e,
        Concern::Info(e) => e,
        Concern::Crisis(e) => e,
    };
    let mut line = e.time.clone();
    line.append(": ");
    line.append(level_name(c.tag_of()));
    line.append(": ");
    let pairs = e.pretty();
    line.append(pairs.as_str());
    proof {
        assert(line@ =~= line_spec(*c));
    }
    line
}

/// Where passing concerns go: the process error stream, or nowhere.
#[derive(Copy, Clone)]
pub enum AuditTarget {
    Stderr(),
    Noop(),
}

/// The audit configuration: a reporting threshold and a target sink.
#[derive(Copy, Clone)]
pub struct Audit {
    pub level: ConcernLevel,
    pub t: AuditTarget,
}

impl Audit {
    /// Whether a concern with the given tag produces output under this
    /// configuration.
    pub open spec fn spec_emits(self, tag: ConcernLevel) -> bool {
        self.t is Stderr && passes(self.level, tag)
    }

    /// An audit configuration reporting to the error stream at the given
    /// threshold.
    pub fn new(c: ConcernLevel) -> (a: Audit)
        ensures
            a.level == c,
            a.t is Stderr,
    {
        Audit { level: c, t: AuditTarget::Stderr() }
    }

    /// Reports a concern: renders and writes one line to the target when the
    /// concern's tag passes the threshold, and otherwise does nothing.
    /// Returns whether output was produced.
    pub fn tell(&self, c: &Concern) -> (emitted: bool)
        ensures
            emitted == self.spec_emits(c.tag()),
    {
        match self.t {
            AuditTarget::Noop() => false,
            AuditTarget::Stderr() => {
                if !level_passes(self.level, c.tag_of()) {
                    false
                } else {
                    let line = render_line(c);
                    emit_line(line.as_str());
                    true
                }
            },
        }
    }

    /// Reports the event at Debug severity.
    pub fn debug(&self, event: Event) -> (emitted: bool)
        ensures
            emitted == self.spec_emits(ConcernLevel::Debug),
    {
        self.tell(&Concern::Debug(event))
    }

    /// Reports the event at Info severity.
    pub fn info(&self, event: Event) -> (emitted: bool)
        ensures
            emitted == self.spec_emits(ConcernLevel::Info),
    {
        self.tell(&Concern::Info(event))
    }

    /// Reports the event at Crisis severity.
    pub fn crisis(&self, event: Event) -> (emitted: bool)
        ensures
            emitted == self.spec_emits(ConcernLevel::Crisis),
    {
        self.tell(&Concern::Crisis(event))
    }
}

/// Reports a flat key/value list at Info severity.
pub fn info(aud: &Audit, pairs: &[&str]) -> (emitted: bool)
    ensures
        emitted == aud.spec_emits(ConcernLevel::Info),
{
    aud.info(eventw(pairs))
}

/// Relies on chrono: `Utc::now()` rendered with `DateTime::to_rfc3339`.
/// The result depends on the clock, so nothing is promised of it.
#[verifier::external_body]
fn now_stamp() -> String {
    chrono::Utc::now().to_rfc3339()
}

/// Relies on `std::io::stderr` and the `writeln` macro: writes the line,
/// followed by a newline, to the process's standard error stream. Audit
/// output is infrastructure that must not fail silently, so a failed write
/// aborts the process.
#[verifier::external_body]
fn emit_line(line: &str) {
    let mut err = std::io::stderr();
    writeln!(&mut err, "{}", line).expect("writing to stderr failed, invariant failed, crashing");
}

} // verus!
