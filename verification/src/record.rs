//! The two ingested record shapes and their byte-payload parsers.
//!
//! A measure is `{"name": string, "measurement": number, "dict": document}`;
//! an event drops the measurement. Record fields are carried as plain text:
//! the measurement as the number's canonical decimal text and the attribute
//! document as its compact JSON text, so that the store adapter can rebuild
//! the typed values at the edge. Parsing itself is serde_json's; each parse
//! entry point is a trusted wrapper whose outcome is named as a function of
//! the input characters alone.

use vstd::prelude::*;

verus! {

/// One measure record: a name, the measurement's decimal text, and the open
/// attribute document as compact JSON text.
#[derive(Debug)]
pub struct MeasureRecord {
    pub name: String,
    pub measurement: String,
    pub dict: String,
}

impl View for MeasureRecord {
    type V = (Seq<char>, Seq<char>, Seq<char>);

    open spec fn view(&self) -> Self::V {
        (self.name@, self.measurement@, self.dict@)
    }
}

impl DeepView for MeasureRecord {
    type V = (Seq<char>, Seq<char>, Seq<char>);

    open spec fn deep_view(&self) -> Self::V {
        self.view()
    }
}

/// One event record: a name and the open attribute document as compact JSON
/// text.
#[derive(Debug)]
pub struct EventRecord {
    pub name: String,
    pub dict: String,
}

impl View for EventRecord {
    type V = (Seq<char>, Seq<char>);

    open spec fn view(&self) -> Self::V {
        (self.name@, self.dict@)
    }
}

impl DeepView for EventRecord {
    type V = (Seq<char>, Seq<char>);

    open spec fn deep_view(&self) -> Self::V {
        self.view()
    }
}

/// One element of a polled batch: a tagged measure or event.
#[derive(Debug)]
pub enum PipeRecord {
    M(MeasureRecord),
    E(EventRecord),
}

/// Mathematical shape of a batch element.
pub enum PipeModel {
    M((Seq<char>, Seq<char>, Seq<char>)),
    E((Seq<char>, Seq<char>)),
}

impl View for PipeRecord {
    type V = PipeModel;

    open spec fn view(&self) -> PipeModel {
        match self {
            PipeRecord::M(m) => PipeModel::M(m@),
            PipeRecord::E(e) => PipeModel::E(e@),
        }
    }
}

impl DeepView for PipeRecord {
    type V = PipeModel;

    open spec fn deep_view(&self) -> PipeModel {
        self.view()
    }
}

/// What a measure body denotes: `(name, measurement text, dict text)` when
/// it is a JSON object carrying a string "name", a numeric "measurement"
/// and a "dict" member, and nothing otherwise. The outcome of serde_json's
/// deterministic parse, named here; no clause states its value on given
/// characters.
pub uninterp spec fn measure_of(s: Seq<char>) -> Option<(Seq<char>, Seq<char>, Seq<char>)>;

/// What an event body denotes: `(name, dict text)` when it is a JSON object
/// carrying a string "name" and a "dict" member, and nothing otherwise.
pub uninterp spec fn event_of(s: Seq<char>) -> Option<(Seq<char>, Seq<char>)>;

/// What a JSON array denotes: the compact text of each element, in order,
/// when the input is a JSON array, and nothing otherwise.
pub uninterp spec fn array_items_of(s: Seq<char>) -> Option<Seq<Seq<char>>>;

/// What a single-member JSON object denotes: its one key and its value's
/// compact text, and nothing for any other input.
pub uninterp spec fn single_entry_of(s: Seq<char>) -> Option<(Seq<char>, Seq<char>)>;

/// Relies on serde_json: `from_str` to `Value` and the `Value` accessors.
/// A measure body must be a JSON object whose "name" member is a string,
/// whose "measurement" member is a number, and which has a "dict" member;
/// other members are ignored, as serde ignores unknown struct fields. The
/// number and the document come back as their compact canonical text, a
/// function of the input characters alone, named `measure_of`.
#[verifier::external_body]
pub(crate) fn parse_measure(s: &str) -> (r: Option<MeasureRecord>)
    ensures
        r is Some <==> measure_of(s@) is Some,
        r matches Some(m) ==> Some(m@) == measure_of(s@),
{
    let v: serde_json::Value = match serde_json::from_str(s) {
        Ok(v) => v,
        Err(_) => return None,
    };
    match (v.get("name"), v.get("measurement"), v.get("dict")) {
        (Some(serde_json::Value::String(n)), Some(serde_json::Value::Number(m)), Some(d)) => Some(
            MeasureRecord { name: n.clone(), measurement: m.to_string(), dict: d.to_string() },
        ),
        _ => None,
    }
}

/// Relies on serde_json: `from_str` to `Value` and the `Value` accessors.
/// An event body must be a JSON object whose "name" member is a string and
/// which has a "dict" member; other members are ignored. The document comes
/// back as its compact text, a function of the input characters alone,
/// named `event_of`.
#[verifier::external_body]
pub(crate) fn parse_event(s: &str) -> (r: Option<EventRecord>)
    ensures
        r is Some <==> event_of(s@) is Some,
        r matches Some(e) ==> Some(e@) == event_of(s@),
{
    let v: serde_json::Value = match serde_json::from_str(s) {
        Ok(v) => v,
        Err(_) => return None,
    };
    match (v.get("name"), v.get("dict")) {
        (Some(serde_json::Value::String(n)), Some(d)) => Some(
            EventRecord { name: n.clone(), dict: d.to_string() },
        ),
        _ => None,
    }
}

/// Relies on serde_json: `from_str` to `Vec<Value>` splits a JSON array into
/// its elements, handed back as their compact JSON text in order; any other
/// input is refused with serde's error text. The element list is a function
/// of the input characters alone, named `array_items_of`; nothing is
/// promised of the error text.
#[verifier::external_body]
pub(crate) fn split_array(s: &str) -> (r: Result<Vec<String>, String>)
    ensures
        r is Ok <==> array_items_of(s@) is Some,
        r matches Ok(items) ==> items.deep_view() == array_items_of(s@).unwrap(),
{
    match serde_json::from_str::<Vec<serde_json::Value>>(s) {
        Ok(vals) => Ok(vals.iter().map(|v| v.to_string()).collect()),
        Err(e) => Err(e.to_string()),
    }
}

/// Relies on serde_json: `from_str` to `Value` plus `as_object`. Accepts
/// exactly a JSON object with a single member — the shape serde gives an
/// externally tagged enum — and hands back the member's key and its value's
/// compact text, a function of the input characters alone, named
/// `single_entry_of`.
#[verifier::external_body]
pub(crate) fn single_entry(s: &str) -> (r: Option<(String, String)>)
    ensures
        r is Some <==> single_entry_of(s@) is Some,
        r matches Some(p) ==> Some((p.0@, p.1@)) == single_entry_of(s@),
{
    let v: serde_json::Value = match serde_json::from_str(s) {
        Ok(v) => v,
        Err(_) => return None,
    };
    let o = match v.as_object() {
        Some(o) => o,
        None => return None,
    };
    if o.len() != 1 {
        return None;
    }
    match o.iter().next() {
        Some((k, val)) => Some((k.clone(), val.to_string())),
        None => None,
    }
}

/// What one batch element denotes: the record under its "M" or "E" tag, if
/// the element is a single-member object so tagged and its payload parses.
pub open spec fn pipe_item_model(s: Seq<char>) -> Option<PipeModel> {
    match single_entry_of(s) {
        None => None,
        Some(entry) => if entry.0 == "M"@ {
            match measure_of(entry.1) {
                Some(m) => Some(PipeModel::M(m)),
                None => None,
            }
        } else if entry.0 == "E"@ {
            match event_of(entry.1) {
                Some(e) => Some(PipeModel::E(e)),
                None => None,
            }
        } else {
            None
        },
    }
}

/// Parses one batch element: a single-member object tagged "M" or "E" whose
/// payload is a record of the tagged kind.
pub fn parse_pipe_item(s: &str) -> (r: Option<PipeRecord>)
    ensures
        r is Some <==> pipe_item_model(s@) is Some,
        r matches Some(rec) ==> Some(rec@) == pipe_item_model(s@),
{
    match single_entry(s) {
        None => None,
        Some(p) => {
            let (tag, payload) = p;
            let m_tag = "M".to_owned();
            let e_tag = "E".to_owned();
            if tag == m_tag {
                match parse_measure(payload.as_str()) {
                    Some(m) => Some(PipeRecord::M(m)),
                    None => None,
                }
            } else if tag == e_tag {
                match parse_event(payload.as_str()) {
                    Some(e) => Some(PipeRecord::E(e)),
                    None => None,
                }
            } else {
                None
            }
        },
    }
}

/// What a whole batch denotes: the records of its elements, in order,
/// provided the input is a JSON array and every element denotes a record.
pub open spec fn batch_model(s: Seq<char>) -> Option<Seq<PipeModel>> {
    match array_items_of(s) {
        None => None,
        Some(items) => if forall|i: int|
            0 <= i < items.len() ==> (#[trigger] pipe_item_model(items[i])) is Some {
            Some(Seq::new(items.len(), |i: int| pipe_item_model(items[i]).unwrap()))
        } else {
            None
        },
    }
}

/// Parses a batch: a JSON array of tagged records. On failure the error text
/// comes back for reporting; for a malformed array it is serde's own.
pub fn parse_batch(s: &str) -> (r: Result<Vec<PipeRecord>, String>)
    ensures
        r is Ok <==> batch_model(s@) is Some,
        r matches Ok(recs) ==> recs.deep_view() == batch_model(s@).unwrap(),
{
    let items = match split_array(s) {
        Ok(items) => items,
        Err(e) => {
            return Err(e);
        },
    };
    let ghost model_items = array_items_of(s@).unwrap();
    let mut out: Vec<PipeRecord> = Vec::new();
    let mut i: usize = 0;
    while i < items.len()
        invariant
            i <= items@.len(),
            out@.len() == i,
            items.deep_view() == model_items,
            array_items_of(s@) == Some(model_items),
            forall|j: int|
                0 <= j < i ==> (#[trigger] pipe_item_model(model_items[j])) is Some
                    && Some(out@[j]@) == pipe_item_model(model_items[j]),
        decreases items@.len() - i,
    {
        proof {
            assert(items.deep_view()[i as int] == items@[i as int]@);
        }
        match parse_pipe_item(items[i].as_str()) {
            Some(rec) => {
                out.push(rec);
            },
            None => {
                return Err("unrecognized batch record".to_owned());
            },
        }
        i += 1;
    }
    proof {
        assert(forall|j: int|
            0 <= j < model_items.len() ==> (#[trigger] pipe_item_model(model_items[j])) is Some);
        assert(out.deep_view() =~= batch_model(s@).unwrap());
    }
    Ok(out)
}

} // verus!
