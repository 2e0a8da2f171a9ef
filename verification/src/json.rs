use vstd::prelude::*;

use crate::text::same_text;

verus! {

/// A JSON value as the realtime protocol reads it: strings, integers, booleans
/// and null are kept; arrays and objects are kept as their JSON text.
#[derive(Debug, Clone, PartialEq, Eq)]
pub enum JsonField {
    Text(String),
    /// A number, with its value where it is an integer that fits the type.
    Number { as_u64: Option<u64>, as_i64: Option<i64> },
    Flag(bool),
    Null,
    Other(String),
}

pub enum JsonFieldView {
    Text(Seq<char>),
    Number { as_u64: Option<u64>, as_i64: Option<i64> },
    Flag(bool),
    Null,
    Other(Seq<char>),
}

impl View for JsonField {
    type V = JsonFieldView;

    open spec fn view(&self) -> JsonFieldView {
        match self {
            JsonField::Text(s) => JsonFieldView::Text(s@),
            JsonField::Number { as_u64, as_i64 } => JsonFieldView::Number { as_u64: *as_u64, as_i64: *as_i64 },
            JsonField::Flag(b) => JsonFieldView::Flag(*b),
            JsonField::Null => JsonFieldView::Null,
            JsonField::Other(s) => JsonFieldView::Other(s@),
        }
    }
}

impl JsonField {
    /// A copy of this value.
    pub fn duplicate(&self) -> (r: JsonField)
        ensures
            r@ == self@,
    {
        match self {
            JsonField::Text(s) => JsonField::Text(s.clone()),
            JsonField::Number { as_u64, as_i64 } => JsonField::Number { as_u64: *as_u64, as_i64: *as_i64 },
            JsonField::Flag(b) => JsonField::Flag(*b),
            JsonField::Null => JsonField::Null,
            JsonField::Other(s) => JsonField::Other(s.clone()),
        }
    }
}

/// The members of a JSON object, in order.
pub type JsonEntries = Vec<(String, JsonField)>;

pub open spec fn entries_view(v: Seq<(String, JsonField)>) -> Seq<(Seq<char>, JsonFieldView)> {
    v.map_values(|p: (String, JsonField)| (p.0@, p.1@))
}

/// The value of member `key` (the first one of that name).
pub open spec fn member(entries: Seq<(Seq<char>, JsonFieldView)>, key: Seq<char>) -> Option<JsonFieldView>
    decreases entries.len(),
{
    if entries.len() == 0 {
        None
    } else if entries[0].0 == key {
        Some(entries[0].1)
    } else {
        member(entries.drop_first(), key)
    }
}

/// `Value::as_str` on an optional value.
pub open spec fn as_text(v: Option<JsonFieldView>) -> Option<Seq<char>> {
    match v {
        Some(JsonFieldView::Text(s)) => Some(s),
        _ => None,
    }
}

/// `Value::as_u64` on an optional value.
pub open spec fn as_u64(v: Option<JsonFieldView>) -> Option<u64> {
    match v {
        Some(JsonFieldView::Number { as_u64, .. }) => as_u64,
        _ => None,
    }
}

/// `Value::as_i64` on an optional value.
pub open spec fn as_i64(v: Option<JsonFieldView>) -> Option<i64> {
    match v {
        Some(JsonFieldView::Number { as_i64, .. }) => as_i64,
        _ => None,
    }
}

/// `Value::as_bool` on an optional value.
pub open spec fn as_flag(v: Option<JsonFieldView>) -> Option<bool> {
    match v {
        Some(JsonFieldView::Flag(b)) => Some(b),
        _ => None,
    }
}

/// `a`, or `b` when `a` is absent.
pub open spec fn or_else<T>(a: Option<T>, b: Option<T>) -> Option<T> {
    match a {
        Some(x) => Some(x),
        None => b,
    }
}

/// The member `key` of `entries`.
pub fn find_member<'a>(entries: &'a Vec<(String, JsonField)>, key: &str) -> (r: Option<&'a JsonField>)
    ensures
        match r {
            Some(f) => member(entries_view(entries@), key@) == Some(f@),
            None => member(entries_view(entries@), key@) is None,
        },
{
    let ghost all = entries_view(entries@);
    let mut i: usize = 0;
    assert(all.skip(0) =~= all);
    while i < entries.len()
        invariant
            i <= entries.len(),
            all == entries_view(entries@),
            member(all, key@) == member(all.skip(i as int), key@),
        decreases entries.len() - i,
    {
        assert(all.skip(i as int).drop_first() =~= all.skip(i + 1));
        if same_text(entries[i].0.as_str(), key) {
            return Some(&entries[i].1);
        }
        i += 1;
    }
    None
}

/// The string member `key`, copied.
pub fn member_text(entries: &Vec<(String, JsonField)>, key: &str) -> (r: Option<String>)
    ensures
        match r {
            Some(s) => as_text(member(entries_view(entries@), key@)) == Some(s@),
            None => as_text(member(entries_view(entries@), key@)) is None,
        },
{
    match find_member(entries, key) {
        Some(JsonField::Text(s)) => Some(s.clone()),
        _ => None,
    }
}

/// The member `key` as a `u64`.
pub fn member_u64(entries: &Vec<(String, JsonField)>, key: &str) -> (r: Option<u64>)
    ensures
        r == as_u64(member(entries_view(entries@), key@)),
{
    match find_member(entries, key) {
        Some(JsonField::Number { as_u64, .. }) => *as_u64,
        _ => None,
    }
}

/// The member `key` as an `i64`.
pub fn member_i64(entries: &Vec<(String, JsonField)>, key: &str) -> (r: Option<i64>)
    ensures
        r == as_i64(member(entries_view(entries@), key@)),
{
    match find_member(entries, key) {
        Some(JsonField::Number { as_i64, .. }) => *as_i64,
        _ => None,
    }
}

/// The member `key` as a `bool`.
pub fn member_flag(entries: &Vec<(String, JsonField)>, key: &str) -> (r: Option<bool>)
    ensures
        r == as_flag(member(entries_view(entries@), key@)),
{
    match find_member(entries, key) {
        Some(JsonField::Flag(b)) => Some(*b),
        _ => None,
    }
}

/// One JSON event of the realtime protocol: its top-level members, and the
/// members of its `header` and `payload` objects (empty when there is none).
#[derive(Debug, Clone, PartialEq, Eq)]
pub struct RealtimeEvent {
    pub fields: Vec<(String, JsonField)>,
    pub header: Vec<(String, JsonField)>,
    pub payload: Vec<(String, JsonField)>,
}

pub struct RealtimeEventView {
    pub fields: Seq<(Seq<char>, JsonFieldView)>,
    pub header: Seq<(Seq<char>, JsonFieldView)>,
    pub payload: Seq<(Seq<char>, JsonFieldView)>,
}

impl View for RealtimeEvent {
    type V = RealtimeEventView;

    open spec fn view(&self) -> RealtimeEventView {
        RealtimeEventView {
            fields: entries_view(self.fields@),
            header: entries_view(self.header@),
            payload: entries_view(self.payload@),
        }
    }
}

impl RealtimeEventView {
    /// A top-level string member.
    pub open spec fn top_text(self, key: Seq<char>) -> Option<Seq<char>> {
        as_text(member(self.fields, key))
    }

    /// A string member of the payload, or else of the event itself.
    pub open spec fn payload_text(self, key: Seq<char>) -> Option<Seq<char>> {
        or_else(as_text(member(self.payload, key)), as_text(member(self.fields, key)))
    }

    /// An integer member of the payload, or else of the event itself.
    pub open spec fn payload_u64(self, key: Seq<char>) -> Option<u64> {
        or_else(as_u64(member(self.payload, key)), as_u64(member(self.fields, key)))
    }

    /// A boolean member of the payload, or else of the event itself.
    pub open spec fn payload_flag(self, key: Seq<char>) -> Option<bool> {
        or_else(as_flag(member(self.payload, key)), as_flag(member(self.fields, key)))
    }

    /// Any member of the payload, or else of the event itself.
    pub open spec fn payload_value(self, key: Seq<char>) -> Option<JsonFieldView> {
        or_else(member(self.payload, key), member(self.fields, key))
    }

    /// The `event` name, or else the `type` name.
    pub open spec fn event_name(self) -> Option<Seq<char>> {
        or_else(as_text(member(self.fields, "event"@)), as_text(member(self.fields, "type"@)))
    }

    /// The `header.name` of Aliyun-style events, or else the event name.
    pub open spec fn aliyun_event_name(self) -> Option<Seq<char>> {
        or_else(as_text(member(self.header, "name"@)), self.event_name())
    }
}

impl RealtimeEvent {
    /// See `RealtimeEventView::payload_text`.
    pub fn payload_string(&self, key: &str) -> (r: Option<String>)
        ensures
            match r {
                Some(s) => self@.payload_text(key@) == Some(s@),
                None => self@.payload_text(key@) is None,
            },
    {
        match member_text(&self.payload, key) {
            Some(s) => Some(s),
            None => member_text(&self.fields, key),
        }
    }

    /// See `RealtimeEventView::payload_u64`.
    pub fn payload_u64(&self, key: &str) -> (r: Option<u64>)
        ensures
            r == self@.payload_u64(key@),
    {
        match member_u64(&self.payload, key) {
            Some(v) => Some(v),
            None => member_u64(&self.fields, key),
        }
    }

    /// See `RealtimeEventView::payload_flag`.
    pub fn payload_bool(&self, key: &str) -> (r: Option<bool>)
        ensures
            r == self@.payload_flag(key@),
    {
        match member_flag(&self.payload, key) {
            Some(v) => Some(v),
            None => member_flag(&self.fields, key),
        }
    }

    /// See `RealtimeEventView::payload_value`.
    pub fn payload_value(&self, key: &str) -> (r: Option<JsonField>)
        ensures
            match r {
                Some(v) => self@.payload_value(key@) == Some(v@),
                None => self@.payload_value(key@) is None,
            },
    {
        match find_member(&self.payload, key) {
            Some(v) => Some(v.duplicate()),
            None => match find_member(&self.fields, key) {
                Some(v) => Some(v.duplicate()),
                None => None,
            },
        }
    }

    /// See `RealtimeEventView::event_name`.
    pub fn event_name(&self) -> (r: Option<String>)
        ensures
            match r {
                Some(s) => self@.event_name() == Some(s@),
                None => self@.event_name() is None,
            },
    {
        match member_text(&self.fields, "event") {
            Some(s) => Some(s),
            None => member_text(&self.fields, "type"),
        }
    }

    /// See `RealtimeEventView::aliyun_event_name`.
    pub fn aliyun_event_name(&self) -> (r: Option<String>)
        ensures
            match r {
                Some(s) => self@.aliyun_event_name() == Some(s@),
                None => self@.aliyun_event_name() is None,
            },
    {
        match member_text(&self.header, "name") {
            Some(s) => Some(s),
            None => self.event_name(),
        }
    }
}

} // verus!
