//! The history response model: one fetched JSON envelope, validated and
//! read out into message records the session log can absorb.

use vstd::prelude::*;
use crate::json::{
    arr_view, json_of, obj_fields_view, obj_get, parse_json, spec_lookup, Json, JsonView,
};
use crate::numfmt::{dec_rep, dec_string};
use crate::session::{Message, MessageView};
use crate::text::str_eq;

verus! {

/// Why a fetch response could not be used. `ShapeError` is the special
/// case of well-formed JSON whose `data.messages` is missing or not a
/// sequence; `ParseError` covers malformed JSON and records with missing
/// or wrongly typed required fields.
#[derive(Clone, Copy, PartialEq, Eq, Structural, Debug)]
pub enum HistoryError {
    ParseError,
    ShapeError,
}

/// Who said a message, as the wire carries it.
#[derive(PartialEq, Eq, Debug)]
pub struct SenderInfo {
    pub user_id: u64,
    pub nickname: String,
    pub card: String,
    pub role: String,
}

/// The mathematical shape of a `SenderInfo`.
pub struct SenderView {
    pub user_id: u64,
    pub nickname: Seq<char>,
    pub card: Seq<char>,
    pub role: Seq<char>,
}

impl View for SenderInfo {
    type V = SenderView;

    open spec fn view(&self) -> SenderView {
        SenderView {
            user_id: self.user_id,
            nickname: self.nickname@,
            card: self.card@,
            role: self.role@,
        }
    }
}

/// One typed content segment of a record's structured `message` list;
/// `text` holds the literal text, required for segments whose kind is
/// `"text"` and optional otherwise.
#[derive(PartialEq, Eq, Debug)]
pub struct Segment {
    pub kind: String,
    pub text: Option<String>,
}

/// The mathematical shape of a `Segment`.
pub struct SegmentView {
    pub kind: Seq<char>,
    pub text: Option<Seq<char>>,
}

/// The view of an optional text.
pub open spec fn opt_text(o: Option<String>) -> Option<Seq<char>> {
    match o {
        Some(s) => Some(s@),
        None => None,
    }
}

impl View for Segment {
    type V = SegmentView;

    open spec fn view(&self) -> SegmentView {
        SegmentView { kind: self.kind@, text: opt_text(self.text) }
    }
}

/// One raw message record of a history response.
#[derive(PartialEq, Eq, Debug)]
pub struct HistoryRecord {
    pub self_id: u64,
    pub user_id: u64,
    pub time: u64,
    pub message_id: u64,
    pub message_seq: u64,
    pub real_id: u64,
    pub real_seq: String,
    pub message_type: String,
    pub sender: SenderInfo,
    pub raw_message: String,
    pub font: u64,
    pub sub_type: String,
    pub segments: Vec<Segment>,
    pub message_format: String,
    pub post_type: String,
    pub group_id: u64,
}

/// The mathematical shape of a `HistoryRecord`.
pub struct RecordView {
    pub self_id: u64,
    pub user_id: u64,
    pub time: u64,
    pub message_id: u64,
    pub message_seq: u64,
    pub real_id: u64,
    pub real_seq: Seq<char>,
    pub message_type: Seq<char>,
    pub sender: SenderView,
    pub raw_message: Seq<char>,
    pub font: u64,
    pub sub_type: Seq<char>,
    pub segments: Seq<SegmentView>,
    pub message_format: Seq<char>,
    pub post_type: Seq<char>,
    pub group_id: u64,
}

impl View for HistoryRecord {
    type V = RecordView;

    open spec fn view(&self) -> RecordView {
        RecordView {
            self_id: self.self_id,
            user_id: self.user_id,
            time: self.time,
            message_id: self.message_id,
            message_seq: self.message_seq,
            real_id: self.real_id,
            real_seq: self.real_seq@,
            message_type: self.message_type@,
            sender: self.sender@,
            raw_message: self.raw_message@,
            font: self.font,
            sub_type: self.sub_type@,
            segments: self.segments@.map_values(|s: Segment| s@),
            message_format: self.message_format@,
            post_type: self.post_type@,
            group_id: self.group_id,
        }
    }
}

/// One parsed history response: the diagnostic metadata (all tolerated
/// when absent) and the record list.
#[derive(PartialEq, Eq, Debug)]
pub struct HistoryEnvelope {
    pub status: Option<String>,
    pub retcode: Option<u64>,
    pub message: Option<String>,
    pub wording: Option<String>,
    pub echo: Option<String>,
    pub records: Vec<HistoryRecord>,
}

/// The mathematical shape of a `HistoryEnvelope`.
pub struct EnvelopeView {
    pub status: Option<Seq<char>>,
    pub retcode: Option<u64>,
    pub message: Option<Seq<char>>,
    pub wording: Option<Seq<char>>,
    pub echo: Option<Seq<char>>,
    pub records: Seq<RecordView>,
}

impl View for HistoryEnvelope {
    type V = EnvelopeView;

    open spec fn view(&self) -> EnvelopeView {
        EnvelopeView {
            status: opt_text(self.status),
            retcode: self.retcode,
            message: opt_text(self.message),
            wording: opt_text(self.wording),
            echo: opt_text(self.echo),
            records: self.records@.map_values(|r: HistoryRecord| r@),
        }
    }
}

/// The unsigned integer under `name`, if the field is there and is one.
pub open spec fn spec_u64_field(fields: Seq<(Seq<char>, JsonView)>, name: Seq<char>) -> Option<
    u64,
> {
    match spec_lookup(fields, name) {
        Some(JsonView::Num(n)) => Some(n),
        _ => None,
    }
}

/// The string under `name`, if the field is there and is one.
pub open spec fn spec_str_field(fields: Seq<(Seq<char>, JsonView)>, name: Seq<char>) -> Option<
    Seq<char>,
> {
    match spec_lookup(fields, name) {
        Some(JsonView::Str(s)) => Some(s),
        _ => None,
    }
}

/// The sender a JSON value describes: an object with a numeric `user_id`
/// and textual `nickname`, `card` and `role`.
pub open spec fn spec_sender_of(j: JsonView) -> Option<SenderView> {
    match j {
        JsonView::Obj(f) => match (
            spec_u64_field(f, "user_id"@),
            spec_str_field(f, "nickname"@),
            spec_str_field(f, "card"@),
            spec_str_field(f, "role"@),
        ) {
            (Some(u), Some(n), Some(c), Some(r)) => Some(
                SenderView { user_id: u, nickname: n, card: c, role: r },
            ),
            _ => None,
        },
        _ => None,
    }
}

/// The segment a JSON value describes: an object with a textual `type`
/// and an object `data`; `data.text` must be a string when the type is
/// `"text"`, and is picked up when present otherwise.
pub open spec fn spec_segment_of(j: JsonView) -> Option<SegmentView> {
    match j {
        JsonView::Obj(f) => match (spec_str_field(f, "type"@), spec_lookup(f, "data"@)) {
            (Some(k), Some(JsonView::Obj(df))) => {
                let t = spec_str_field(df, "text"@);
                if k == "text"@ && t is None {
                    None
                } else {
                    Some(SegmentView { kind: k, text: t })
                }
            },
            _ => None,
        },
        _ => None,
    }
}

/// The segment list a JSON array describes, in order; `None` as soon as
/// any item is not a segment.
pub open spec fn spec_segments_of(items: Seq<JsonView>) -> Option<Seq<SegmentView>>
    decreases items.len(),
{
    if items.len() == 0 {
        Some(Seq::<SegmentView>::empty())
    } else {
        match (spec_segments_of(items.drop_last()), spec_segment_of(items.last())) {
            (Some(rest), Some(s)) => Some(rest.push(s)),
            _ => None,
        }
    }
}

/// One unusable item makes the whole segment list unusable.
proof fn lemma_segments_of_none(items: Seq<JsonView>, i: int)
    requires
        0 <= i < items.len(),
        spec_segment_of(items[i]) is None,
    ensures
        spec_segments_of(items) is None,
    decreases items.len(),
{
    if i < items.len() - 1 {
        assert(items.drop_last()[i] == items[i]);
        lemma_segments_of_none(items.drop_last(), i);
    }
}

/// The record a JSON value describes: an object carrying every field of
/// the wire shape, each of its required type.
pub open spec fn spec_record_of(j: JsonView) -> Option<RecordView> {
    match j {
        JsonView::Obj(f) => {
            let sender = match spec_lookup(f, "sender"@) {
                Some(sj) => spec_sender_of(sj),
                None => None,
            };
            let segs = match spec_lookup(f, "message"@) {
                Some(JsonView::Arr(items)) => spec_segments_of(items),
                _ => None,
            };
            if spec_u64_field(f, "self_id"@) is Some && spec_u64_field(f, "user_id"@) is Some
                && spec_u64_field(f, "time"@) is Some && spec_u64_field(f, "message_id"@) is Some
                && spec_u64_field(f, "message_seq"@) is Some && spec_u64_field(f, "real_id"@)
                is Some && spec_str_field(f, "real_seq"@) is Some && spec_str_field(
                f,
                "message_type"@,
            ) is Some && sender is Some && spec_str_field(f, "raw_message"@) is Some
                && spec_u64_field(f, "font"@) is Some && spec_str_field(f, "sub_type"@) is Some
                && segs is Some && spec_str_field(f, "message_format"@) is Some && spec_str_field(
                f,
                "post_type"@,
            ) is Some && spec_u64_field(f, "group_id"@) is Some {
                Some(
                    RecordView {
                        self_id: spec_u64_field(f, "self_id"@).unwrap(),
                        user_id: spec_u64_field(f, "user_id"@).unwrap(),
                        time: spec_u64_field(f, "time"@).unwrap(),
                        message_id: spec_u64_field(f, "message_id"@).unwrap(),
                        message_seq: spec_u64_field(f, "message_seq"@).unwrap(),
                        real_id: spec_u64_field(f, "real_id"@).unwrap(),
                        real_seq: spec_str_field(f, "real_seq"@).unwrap(),
                        message_type: spec_str_field(f, "message_type"@).unwrap(),
                        sender: sender.unwrap(),
                        raw_message: spec_str_field(f, "raw_message"@).unwrap(),
                        font: spec_u64_field(f, "font"@).unwrap(),
                        sub_type: spec_str_field(f, "sub_type"@).unwrap(),
                        segments: segs.unwrap(),
                        message_format: spec_str_field(f, "message_format"@).unwrap(),
                        post_type: spec_str_field(f, "post_type"@).unwrap(),
                        group_id: spec_u64_field(f, "group_id"@).unwrap(),
                    },
                )
            } else {
                None
            }
        },
        _ => None,
    }
}

/// The record list a JSON array describes, in the order received; `None`
/// as soon as any item is not a record.
pub open spec fn spec_records_of(items: Seq<JsonView>) -> Option<Seq<RecordView>>
    decreases items.len(),
{
    if items.len() == 0 {
        Some(Seq::<RecordView>::empty())
    } else {
        match (spec_records_of(items.drop_last()), spec_record_of(items.last())) {
            (Some(rest), Some(r)) => Some(rest.push(r)),
            _ => None,
        }
    }
}

/// One unusable item makes the whole record list unusable.
proof fn lemma_records_of_none(items: Seq<JsonView>, i: int)
    requires
        0 <= i < items.len(),
        spec_record_of(items[i]) is None,
    ensures
        spec_records_of(items) is None,
    decreases items.len(),
{
    if i < items.len() - 1 {
        assert(items.drop_last()[i] == items[i]);
        lemma_records_of_none(items.drop_last(), i);
    }
}

/// The envelope a JSON value describes. `data.messages` must exist and be
/// a sequence (else `ShapeError`); every record in it must be well shaped
/// (else `ParseError`); the diagnostic metadata is read when present and
/// of the right type, and tolerated otherwise.
pub open spec fn spec_envelope_of(j: JsonView) -> Result<EnvelopeView, HistoryError> {
    match j {
        JsonView::Obj(f) => match spec_lookup(f, "data"@) {
            Some(JsonView::Obj(df)) => match spec_lookup(df, "messages"@) {
                Some(JsonView::Arr(items)) => match spec_records_of(items) {
                    Some(recs) => Ok(
                        EnvelopeView {
                            status: spec_str_field(f, "status"@),
                            retcode: spec_u64_field(f, "retcode"@),
                            message: spec_str_field(f, "message"@),
                            wording: spec_str_field(f, "wording"@),
                            echo: spec_str_field(f, "echo"@),
                            records: recs,
                        },
                    ),
                    None => Err(HistoryError::ParseError),
                },
                _ => Err(HistoryError::ShapeError),
            },
            _ => Err(HistoryError::ShapeError),
        },
        _ => Err(HistoryError::ShapeError),
    }
}

/// What parsing a whole payload yields: `ParseError` on malformed JSON,
/// otherwise whatever envelope its tree describes.
pub open spec fn spec_parse(s: Seq<char>) -> Result<EnvelopeView, HistoryError> {
    match json_of(s) {
        None => Err(HistoryError::ParseError),
        Some(j) => spec_envelope_of(j),
    }
}

/// The view of an optional sender.
pub open spec fn opt_sender_view(r: Option<SenderInfo>) -> Option<SenderView> {
    match r {
        Some(s) => Some(s@),
        None => None,
    }
}

/// The view of an optional segment.
pub open spec fn opt_segment_view(r: Option<Segment>) -> Option<SegmentView> {
    match r {
        Some(s) => Some(s@),
        None => None,
    }
}

/// The view of an optional record.
pub open spec fn opt_record_view(r: Option<HistoryRecord>) -> Option<RecordView> {
    match r {
        Some(x) => Some(x@),
        None => None,
    }
}

/// The views of a segment list.
pub open spec fn segments_view(v: Seq<Segment>) -> Seq<SegmentView> {
    v.map_values(|s: Segment| s@)
}

/// The views of a record list.
pub open spec fn records_view(v: Seq<HistoryRecord>) -> Seq<RecordView> {
    v.map_values(|r: HistoryRecord| r@)
}

/// The view of a parse result.
pub open spec fn res_envelope_view(r: Result<HistoryEnvelope, HistoryError>) -> Result<
    EnvelopeView,
    HistoryError,
> {
    match r {
        Ok(e) => Ok(e@),
        Err(x) => Err(x),
    }
}

/// Reads the unsigned integer field `name`.
fn u64_field(fields: &Vec<(String, Json)>, name: &str) -> (r: Option<u64>)
    ensures
        r == spec_u64_field(obj_fields_view(fields@), name@),
{
    match obj_get(fields, name) {
        Some(j) => match j {
            Json::Num(n) => Some(*n),
            _ => None,
        },
        None => None,
    }
}

/// Reads the string field `name`.
fn str_field(fields: &Vec<(String, Json)>, name: &str) -> (r: Option<String>)
    ensures
        opt_text(r) == spec_str_field(obj_fields_view(fields@), name@),
{
    match obj_get(fields, name) {
        Some(j) => match j {
            Json::Str(s) => Some(s.clone()),
            _ => None,
        },
        None => None,
    }
}

/// Reads a sender out of one JSON value.
fn sender_of(j: &Json) -> (r: Option<SenderInfo>)
    ensures
        opt_sender_view(r) == spec_sender_of(j@),
{
    match j {
        Json::Obj(fields) => {
            let u = u64_field(fields, "user_id");
            let n = str_field(fields, "nickname");
            let c = str_field(fields, "card");
            let ro = str_field(fields, "role");
            match (u, n, c, ro) {
                (Some(u), Some(n), Some(c), Some(ro)) => Some(
                    SenderInfo { user_id: u, nickname: n, card: c, role: ro },
                ),
                _ => None,
            }
        },
        _ => None,
    }
}

/// Reads a content segment out of one JSON value.
fn segment_of(j: &Json) -> (r: Option<Segment>)
    ensures
        opt_segment_view(r) == spec_segment_of(j@),
{
    match j {
        Json::Obj(fields) => {
            let k = match str_field(fields, "type") {
                Some(k) => k,
                None => {
                    return None;
                },
            };
            let df = match obj_get(fields, "data") {
                Some(d) => match d {
                    Json::Obj(df) => df,
                    _ => {
                        return None;
                    },
                },
                None => {
                    return None;
                },
            };
            let t = str_field(df, "text");
            if str_eq(k.as_str(), "text") && t.is_none() {
                None
            } else {
                Some(Segment { kind: k, text: t })
            }
        },
        _ => None,
    }
}

/// Reads a whole segment list out of a JSON array's items.
fn segments_of(items: &Vec<Json>) -> (r: Option<Vec<Segment>>)
    ensures
        match r {
            Some(v) => spec_segments_of(arr_view(items@)) == Some(segments_view(v@)),
            None => spec_segments_of(arr_view(items@)) is None,
        },
{
    let ghost av = arr_view(items@);
    let n = items.len();
    let mut out: Vec<Segment> = Vec::new();
    let mut i: usize = 0;
    while i < n
        invariant
            0 <= i <= n,
            n == items@.len(),
            av == arr_view(items@),
            av.len() == n,
            out@.len() == i,
            spec_segments_of(av.take(i as int)) == Some(segments_view(out@)),
        decreases n - i,
    {
        proof {
            assert(av[i as int] == items@[i as int]@);
        }
        let s = match segment_of(&items[i]) {
            Some(s) => s,
            None => {
                proof {
                    lemma_segments_of_none(av, i as int);
                }
                return None;
            },
        };
        let ghost sv = s@;
        let ghost prev = out@;
        out.push(s);
        proof {
            assert(av.take(i + 1).drop_last() =~= av.take(i as int));
            assert(av.take(i + 1).last() == av[i as int]);
            assert(segments_view(out@)[i as int] == sv);
            assert forall|k: int| 0 <= k < i implies segments_view(out@)[k] == segments_view(
                prev,
            )[k] by {
                assert(out@[k] == prev[k]);
            }
            assert(segments_view(out@) =~= segments_view(prev).push(sv));
        }
        i += 1;
    }
    proof {
        assert(av.take(n as int) =~= av);
    }
    Some(out)
}

/// Reads a record out of one JSON value.
fn record_of(j: &Json) -> (r: Option<HistoryRecord>)
    ensures
        opt_record_view(r) == spec_record_of(j@),
{
    match j {
        Json::Obj(fields) => {
            let self_id = match u64_field(fields, "self_id") {
                Some(v) => v,
                None => {
                    return None;
                },
            };
            let user_id = match u64_field(fields, "user_id") {
                Some(v) => v,
                None => {
                    return None;
                },
            };
            let time = match u64_field(fields, "time") {
                Some(v) => v,
                None => {
                    return None;
                },
            };
            let message_id = match u64_field(fields, "message_id") {
                Some(v) => v,
                None => {
                    return None;
                },
            };
            let message_seq = match u64_field(fields, "message_seq") {
                Some(v) => v,
                None => {
                    return None;
                },
            };
            let real_id = match u64_field(fields, "real_id") {
                Some(v) => v,
                None => {
                    return None;
                },
            };
            let real_seq = match str_field(fields, "real_seq") {
                Some(v) => v,
                None => {
                    return None;
                },
            };
            let message_type = match str_field(fields, "message_type") {
                Some(v) => v,
                None => {
                    return None;
                },
            };
            let sender = match obj_get(fields, "sender") {
                Some(sj) => match sender_of(sj) {
                    Some(s) => s,
                    None => {
                        return None;
                    },
                },
                None => {
                    return None;
                },
            };
            let raw_message = match str_field(fields, "raw_message") {
                Some(v) => v,
                None => {
                    return None;
                },
            };
            let font = match u64_field(fields, "font") {
                Some(v) => v,
                None => {
                    return None;
                },
            };
            let sub_type = match str_field(fields, "sub_type") {
                Some(v) => v,
                None => {
                    return None;
                },
            };
            let segments = match obj_get(fields, "message") {
                Some(mj) => match mj {
                    Json::Arr(items) => match segments_of(items) {
                        Some(v) => v,
                        None => {
                            return None;
                        },
                    },
                    _ => {
                        return None;
                    },
                },
                None => {
                    return None;
                },
            };
            let message_format = match str_field(fields, "message_format") {
                Some(v) => v,
                None => {
                    return None;
                },
            };
            let post_type = match str_field(fields, "post_type") {
                Some(v) => v,
                None => {
                    return None;
                },
            };
            let group_id = match u64_field(fields, "group_id") {
                Some(v) => v,
                None => {
                    return None;
                },
            };
            Some(
                HistoryRecord {
                    self_id,
                    user_id,
                    time,
                    message_id,
                    message_seq,
                    real_id,
                    real_seq,
                    message_type,
                    sender,
                    raw_message,
                    font,
                    sub_type,
                    segments,
                    message_format,
                    post_type,
                    group_id,
                },
            )
        },
        _ => None,
    }
}

/// Reads a whole record list out of a JSON array's items.
fn records_of(items: &Vec<Json>) -> (r: Option<Vec<HistoryRecord>>)
    ensures
        match r {
            Some(v) => spec_records_of(arr_view(items@)) == Some(records_view(v@)),
            None => spec_records_of(arr_view(items@)) is None,
        },
{
    let ghost av = arr_view(items@);
    let n = items.len();
    let mut out: Vec<HistoryRecord> = Vec::new();
    let mut i: usize = 0;
    while i < n
        invariant
            0 <= i <= n,
            n == items@.len(),
            av == arr_view(items@),
            av.len() == n,
            out@.len() == i,
            spec_records_of(av.take(i as int)) == Some(records_view(out@)),
        decreases n - i,
    {
        proof {
            assert(av[i as int] == items@[i as int]@);
        }
        let rec = match record_of(&items[i]) {
            Some(rec) => rec,
            None => {
                proof {
                    lemma_records_of_none(av, i as int);
                }
                return None;
            },
        };
        let ghost rv = rec@;
        let ghost prev = out@;
        out.push(rec);
        proof {
            assert(av.take(i + 1).drop_last() =~= av.take(i as int));
            assert(av.take(i + 1).last() == av[i as int]);
            assert(records_view(out@)[i as int] == rv);
            assert forall|k: int| 0 <= k < i implies records_view(out@)[k] == records_view(
                prev,
            )[k] by {
                assert(out@[k] == prev[k]);
            }
            assert(records_view(out@) =~= records_view(prev).push(rv));
        }
        i += 1;
    }
    proof {
        assert(av.take(n as int) =~= av);
    }
    Some(out)
}

/// Reads the envelope a JSON tree describes.
fn envelope_of(j: &Json) -> (r: Result<HistoryEnvelope, HistoryError>)
    ensures
        res_envelope_view(r) == spec_envelope_of(j@),
{
    match j {
        Json::Obj(fields) => {
            let df = match obj_get(fields, "data") {
                Some(d) => match d {
                    Json::Obj(df) => df,
                    _ => {
                        return Err(HistoryError::ShapeError);
                    },
                },
                None => {
                    return Err(HistoryError::ShapeError);
                },
            };
            let items = match obj_get(df, "messages") {
                Some(m) => match m {
                    Json::Arr(items) => items,
                    _ => {
                        return Err(HistoryError::ShapeError);
                    },
                },
                None => {
                    return Err(HistoryError::ShapeError);
                },
            };
            let records = match records_of(items) {
                Some(v) => v,
                None => {
                    return Err(HistoryError::ParseError);
                },
            };
            Ok(
                HistoryEnvelope {
                    status: str_field(fields, "status"),
                    retcode: u64_field(fields, "retcode"),
                    message: str_field(fields, "message"),
                    wording: str_field(fields, "wording"),
                    echo: str_field(fields, "echo"),
                    records,
                },
            )
        },
        _ => Err(HistoryError::ShapeError),
    }
}

/// Parses one raw history payload. Returns `ParseError` exactly when the
/// text is malformed JSON or a record field is missing or wrongly typed,
/// `ShapeError` exactly when the JSON is well formed but `data.messages`
/// is absent or not a sequence, and otherwise the envelope.
pub fn parse(raw: &str) -> (r: Result<HistoryEnvelope, HistoryError>)
    ensures
        res_envelope_view(r) == spec_parse(raw@),
{
    match parse_json(raw) {
        None => Err(HistoryError::ParseError),
        Some(j) => envelope_of(&j),
    }
}

/// The message a record surfaces as: the sender's nickname, the flattened
/// text, and the numeric time rendered in decimal as the timestamp.
pub open spec fn display_of(rec: RecordView) -> MessageView {
    MessageView {
        sender: rec.sender.nickname,
        content: rec.raw_message,
        timestamp: dec_rep(rec.time as nat),
    }
}

/// The views of a message list.
pub open spec fn messages_view(v: Seq<Message>) -> Seq<MessageView> {
    v.map_values(|m: Message| m@)
}

/// Turns every record of an envelope into a displayable message, in the
/// order received. Records with empty text are kept as zero-length
/// messages: the "drop blank content" rule belongs to user input alone.
pub fn extract_display_messages(env: &HistoryEnvelope) -> (r: Vec<Message>)
    ensures
        messages_view(r@) == env@.records.map_values(|rec: RecordView| display_of(rec)),
{
    let n = env.records.len();
    let mut out: Vec<Message> = Vec::new();
    let mut i: usize = 0;
    while i < n
        invariant
            0 <= i <= n,
            n == env.records@.len(),
            out@.len() == i,
            messages_view(out@) =~= env@.records.map_values(
                |rec: RecordView| display_of(rec),
            ).take(i as int),
        decreases n - i,
    {
        let rec = &env.records[i];
        let msg = Message {
            sender: rec.sender.nickname.clone(),
            content: rec.raw_message.clone(),
            timestamp: dec_string(rec.time),
        };
        let ghost prev = out@;
        out.push(msg);
        proof {
            assert(env@.records[i as int] == env.records@[i as int]@);
            assert(messages_view(out@).len() == i + 1);
            assert(messages_view(out@)[i as int] == display_of(env@.records[i as int]));
            assert forall|k: int| 0 <= k < i implies messages_view(out@)[k] == messages_view(
                prev,
            )[k] by {
                assert(out@[k] == prev[k]);
            }
            assert(messages_view(out@) =~= env@.records.map_values(
                |rec: RecordView| display_of(rec),
            ).take(i + 1));
        }
        i += 1;
    }
    proof {
        let target = env@.records.map_values(|rec: RecordView| display_of(rec));
        assert(target.take(n as int) =~= target);
        assert(messages_view(out@) == target);
    }
    out
}

} // verus!
