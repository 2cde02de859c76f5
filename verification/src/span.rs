//! Spans of a distributed trace, and the batches in which they are sent.

use crate::attribute::{Attributes, Value};
use crate::client::{is_header_byte, is_header_value};
use crate::endpoint::{decimal, push_decimal};
use crate::time::{Duration, NANOS_PER_MILLI};
use crate::wire::{payload, payload_text};
use uuid::Uuid;
use vstd::prelude::*;
use vstd::std_specs::convert::{FromSpecImpl, IntoSpec};
use vstd::string::StringExecFns;
use vstd::utf8::{encode_utf8, is_ascii_chars, is_ascii_chars_encode_utf8};

verus! {

/// A lower-case hexadecimal digit.
pub open spec fn is_lower_hex(c: char) -> bool {
    ('0' <= c <= '9') || ('a' <= c <= 'f')
}

/// Where the hyphens stand in an identifier.
pub open spec fn is_hyphen_place(i: int) -> bool {
    i == 8 || i == 13 || i == 18 || i == 23
}

/// `id` has the form of an identifier: 36 characters, hyphens at the
/// places 8, 13, 18 and 23, and lower-case hexadecimal digits at all
/// others.
pub open spec fn is_uuid_text(id: Seq<char>) -> bool {
    &&& id.len() == 36
    &&& forall|i: int|
        0 <= i < id.len() ==> if is_hyphen_place(i) {
            #[trigger] id[i] == '-'
        } else {
            is_lower_hex(id[i])
        }
}

/// Makes a fresh identifier with `Uuid::new_v4` and writes it out with
/// `to_string`: 32 lower-case hexadecimal digits in five groups, with a
/// hyphen between one group and the next. The identifier is random, so
/// nothing else is said of it. The call fails hard where the system has no
/// random bytes to give.
#[verifier::external_body]
pub(crate) fn new_uuid() -> (id: String)
    ensures
        is_uuid_text(id@),
{
    Uuid::new_v4().to_string()
}

/// An identifier can stand in a header: it holds digits, letters and
/// hyphens only.
pub proof fn lemma_uuid_stands_in_header(id: Seq<char>)
    requires
        is_uuid_text(id),
    ensures
        is_header_value(encode_utf8(id)),
{
    assert(is_ascii_chars(id)) by {
        assert forall|i: int| 0 <= i < id.len() implies '\0' <= #[trigger] id[i] <= '\u{7f}' by {
            if is_hyphen_place(i) {
                assert(id[i] == '-');
            } else {
                assert(is_lower_hex(id[i]));
            }
        }
    }
    is_ascii_chars_encode_utf8(id);
    let bytes = encode_utf8(id);
    assert forall|i: int| 0 <= i < bytes.len() implies is_header_byte(#[trigger] bytes[i]) by {
        assert(id[i] as u8 == bytes[i]);
        if is_hyphen_place(i) {
            assert(id[i] == '-');
        } else {
            assert(is_lower_hex(id[i]));
        }
    }
}

/// A span of a distributed trace.
#[derive(Debug, PartialEq)]
pub struct Span {
    /// The identifier of the span.
    pub id: String,
    /// The identifier that all spans of one trace share.
    pub trace_id: String,
    /// The start of the span, in milliseconds since the epoch.
    pub timestamp: u64,
    /// The attributes of the span.
    pub attributes: Attributes,
}

impl Clone for Span {
    fn clone(&self) -> (copy: Span)
        ensures
            copy.id == self.id,
            copy.trace_id == self.trace_id,
            copy.timestamp == self.timestamp,
            copy.attributes@ == self.attributes@,
    {
        Span {
            id: self.id.clone(),
            trace_id: self.trace_id.clone(),
            timestamp: self.timestamp,
            attributes: self.attributes.duplicate(),
        }
    }
}

/// `after` is `before` with the text `text` under `key`.
pub open spec fn text_set(
    before: Map<Seq<char>, Value>,
    after: Map<Seq<char>, Value>,
    key: Seq<char>,
    text: Seq<char>,
) -> bool {
    &&& after.contains_key(key)
    &&& after[key] matches Value::Str(held) && held@ == text
    &&& after == before.insert(key, after[key])
}

/// `after` is `before` with what `value` converts into under `key`: a value
/// that the conversion of `T` can give for it, and the one that its
/// specification names where it has one.
pub open spec fn value_set<T: Into<Value>>(
    before: Map<Seq<char>, Value>,
    after: Map<Seq<char>, Value>,
    key: Seq<char>,
    value: T,
) -> bool {
    &&& after.contains_key(key)
    &&& after == before.insert(key, after[key])
    &&& T::obeys_into_spec() ==> after[key] == value.into_spec()
    &&& call_ensures(T::into, (value,), after[key])
}

fn set_text(attributes: &mut Attributes, key: &str, text: &str)
    ensures
        text_set(old(attributes)@, final(attributes)@, key@, text@),
{
    let value = Value::Str(text.to_owned());
    attributes.insert(key, value);
    assert(attributes@[key@] == value);
}

impl Span {
    /// Creates a span with an identifier, a trace identifier and a
    /// timestamp, and no attributes.
    pub fn new(id: &str, trace_id: &str, timestamp: u64) -> (span: Span)
        ensures
            span.id@ == id@,
            span.trace_id@ == trace_id@,
            span.timestamp == timestamp,
            span.attributes@ == Map::<Seq<char>, Value>::empty(),
    {
        Span {
            id: id.to_owned(),
            trace_id: trace_id.to_owned(),
            timestamp,
            attributes: Attributes::new(),
        }
    }

    /// Sets the identifier of the span.
    pub fn id(self, id: &str) -> (span: Span)
        ensures
            span.id@ == id@,
            span.trace_id == self.trace_id,
            span.timestamp == self.timestamp,
            span.attributes == self.attributes,
    {
        let mut span = self;
        span.id = id.to_owned();
        span
    }

    /// Sets the identifier of the span.
    pub fn set_id(&mut self, id: &str)
        ensures
            final(self).id@ == id@,
            final(self).trace_id == old(self).trace_id,
            final(self).timestamp == old(self).timestamp,
            final(self).attributes == old(self).attributes,
    {
        self.id = id.to_owned();
    }

    /// Sets the identifier that all spans of one trace share.
    pub fn trace_id(self, trace_id: &str) -> (span: Span)
        ensures
            span.trace_id@ == trace_id@,
            span.id == self.id,
            span.timestamp == self.timestamp,
            span.attributes == self.attributes,
    {
        let mut span = self;
        span.trace_id = trace_id.to_owned();
        span
    }

    /// Sets the identifier that all spans of one trace share.
    pub fn set_trace_id(&mut self, trace_id: &str)
        ensures
            final(self).trace_id@ == trace_id@,
            final(self).id == old(self).id,
            final(self).timestamp == old(self).timestamp,
            final(self).attributes == old(self).attributes,
    {
        self.trace_id = trace_id.to_owned();
    }

    /// Sets the start of the span.
    pub fn timestamp(self, timestamp: u64) -> (span: Span)
        ensures
            span == (Span { timestamp, ..self }),
    {
        let mut span = self;
        span.timestamp = timestamp;
        span
    }

    /// Sets the start of the span.
    pub fn set_timestamp(&mut self, timestamp: u64)
        ensures
            *final(self) == (Span { timestamp, ..*old(self) }),
    {
        self.timestamp = timestamp;
    }

    /// The span is `before` but for its attributes.
    pub open spec fn same_but_attributes(self, before: Span) -> bool {
        &&& self.id == before.id
        &&& self.trace_id == before.trace_id
        &&& self.timestamp == before.timestamp
    }

    /// Sets the name of the span: the attribute `name`.
    pub fn name(self, name: &str) -> (span: Span)
        ensures
            span.same_but_attributes(self),
            text_set(self.attributes@, span.attributes@, "name"@, name@),
    {
        let mut span = self;
        set_text(&mut span.attributes, "name", name);
        span
    }

    /// Sets the name of the span: the attribute `name`.
    pub fn set_name(&mut self, name: &str)
        ensures
            final(self).same_but_attributes(*old(self)),
            text_set(old(self).attributes@, final(self).attributes@, "name"@, name@),
    {
        set_text(&mut self.attributes, "name", name);
    }

    /// The value that holds `duration`: its whole milliseconds.
    pub open spec fn duration_value(duration: Duration) -> Value {
        Value::UInt128((duration.total_nanos() / (NANOS_PER_MILLI as nat)) as u128)
    }

    /// Sets the duration of the span, in milliseconds: the attribute
    /// `duration.ms`.
    pub fn duration(self, duration: Duration) -> (span: Span)
        ensures
            span.same_but_attributes(self),
            span.attributes@ == self.attributes@.insert(
                "duration.ms"@,
                Self::duration_value(duration),
            ),
    {
        let mut span = self;
        span.attributes.insert("duration.ms", Value::UInt128(duration.as_millis()));
        span
    }

    /// Sets the duration of the span, in milliseconds: the attribute
    /// `duration.ms`.
    pub fn set_duration(&mut self, duration: Duration)
        ensures
            final(self).same_but_attributes(*old(self)),
            final(self).attributes@ == old(self).attributes@.insert(
                "duration.ms"@,
                Self::duration_value(duration),
            ),
    {
        self.attributes.insert("duration.ms", Value::UInt128(duration.as_millis()));
    }

    /// Sets the identifier of the span's caller: the attribute `parent.id`.
    pub fn parent_id(self, parent_id: &str) -> (span: Span)
        ensures
            span.same_but_attributes(self),
            text_set(self.attributes@, span.attributes@, "parent.id"@, parent_id@),
    {
        let mut span = self;
        set_text(&mut span.attributes, "parent.id", parent_id);
        span
    }

    /// Sets the identifier of the span's caller: the attribute `parent.id`.
    pub fn set_parent_id(&mut self, parent_id: &str)
        ensures
            final(self).same_but_attributes(*old(self)),
            text_set(old(self).attributes@, final(self).attributes@, "parent.id"@, parent_id@),
    {
        set_text(&mut self.attributes, "parent.id", parent_id);
    }

    /// Sets the name of the service that made the span: the attribute
    /// `service.name`.
    pub fn service_name(self, service_name: &str) -> (span: Span)
        ensures
            span.same_but_attributes(self),
            text_set(self.attributes@, span.attributes@, "service.name"@, service_name@),
    {
        let mut span = self;
        set_text(&mut span.attributes, "service.name", service_name);
        span
    }

    /// Sets the name of the service that made the span: the attribute
    /// `service.name`.
    pub fn set_service_name(&mut self, service_name: &str)
        ensures
            final(self).same_but_attributes(*old(self)),
            text_set(
                old(self).attributes@,
                final(self).attributes@,
                "service.name"@,
                service_name@,
            ),
    {
        set_text(&mut self.attributes, "service.name", service_name);
    }

    /// Sets an attribute of the span.
    pub fn attribute<T: Into<Value>>(self, key: &str, value: T) -> (span: Span)
        ensures
            span.same_but_attributes(self),
            value_set(self.attributes@, span.attributes@, key@, value),
    {
        let mut span = self;
        let converted: Value = value.into();
        span.attributes.insert(key, converted);
        assert(span.attributes@[key@] == converted);
        span
    }

    /// Sets an attribute of the span.
    pub fn set_attribute<T: Into<Value>>(&mut self, key: &str, value: T)
        ensures
            final(self).same_but_attributes(*old(self)),
            value_set(old(self).attributes@, final(self).attributes@, key@, value),
    {
        let converted: Value = value.into();
        self.attributes.insert(key, converted);
        assert(self.attributes@[key@] == converted);
    }
}

/// A collection of spans and the attributes they share.
#[derive(Debug, PartialEq)]
pub struct SpanBatch {
    /// The identifier under which the batch is sent.
    pub uuid: String,
    /// The spans, in the order in which they were recorded.
    pub spans: Vec<Span>,
    /// The attributes that all spans of the batch share.
    pub attributes: Attributes,
}

impl From<Vec<Span>> for SpanBatch {
    /// Creates a batch that holds `spans`.
    fn from(spans: Vec<Span>) -> (batch: SpanBatch)
        ensures
            batch.spans@ == spans@,
            batch.attributes@ == Map::<Seq<char>, Value>::empty(),
            is_uuid_text(batch.uuid@),
    {
        SpanBatch { uuid: new_uuid(), spans, attributes: Attributes::new() }
    }
}

impl FromSpecImpl<Vec<Span>> for SpanBatch {
    /// The identifier of the batch is made anew with each call, so the
    /// conversion is described by the `ensures` of `from` alone.
    open spec fn obeys_from_spec() -> bool {
        false
    }

    open spec fn from_spec(spans: Vec<Span>) -> SpanBatch {
        arbitrary()
    }
}

/// Where a batch of `count` records is cut: the first half, rounded down,
/// stays.
pub open spec fn split_point(count: nat) -> nat {
    count / 2
}

/// A split loses and adds nothing: the records that stay and those that
/// move are the records there were, in their order. The half that stays is
/// the smaller one where the count is odd, and smaller by one record only.
pub proof fn lemma_split_halves<T>(records: Seq<T>)
    ensures
        ({
            let at = split_point(records.len()) as int;
            let stay = records.subrange(0, at);
            let moved = records.subrange(at, records.len() as int);
            &&& stay + moved == records
            &&& stay.len() + moved.len() == records.len()
            &&& stay.len() <= moved.len() <= stay.len() + 1
        }),
{
    let at = split_point(records.len()) as int;
    assert(records.subrange(0, at) + records.subrange(at, records.len() as int) =~= records);
}

/// Moves the records from `split_point` on into a new vector, in their
/// order, and returns it.
pub fn split_records<T>(records: &mut Vec<T>) -> (moved: Vec<T>)
    ensures
        final(records)@ == old(records)@.subrange(0, split_point(old(records)@.len()) as int),
        moved@ == old(records)@.subrange(
            split_point(old(records)@.len()) as int,
            old(records)@.len() as int,
        ),
{
    let at: usize = records.len() / 2;
    records.split_off(at)
}

impl SpanBatch {
    /// Creates an empty batch.
    pub fn new() -> (batch: SpanBatch)
        ensures
            batch.spans@ == Seq::<Span>::empty(),
            batch.attributes@ == Map::<Seq<char>, Value>::empty(),
            is_uuid_text(batch.uuid@),
    {
        SpanBatch { uuid: new_uuid(), spans: Vec::new(), attributes: Attributes::new() }
    }

    /// Adds `span` to the batch.
    pub fn record(&mut self, span: Span)
        ensures
            final(self).spans@ == old(self).spans@.push(span),
            final(self).uuid == old(self).uuid,
            final(self).attributes == old(self).attributes,
    {
        self.spans.push(span);
    }

    /// Sets an attribute of the batch and returns the batch, so that calls
    /// can be chained.
    pub fn attribute<T: Into<Value>>(self, key: &str, value: T) -> (batch: SpanBatch)
        ensures
            batch.uuid == self.uuid,
            batch.spans == self.spans,
            value_set(self.attributes@, batch.attributes@, key@, value),
    {
        let mut batch = self;
        batch.set_attribute(key, value);
        batch
    }

    /// Sets an attribute of the batch.
    pub fn set_attribute<T: Into<Value>>(&mut self, key: &str, value: T)
        ensures
            final(self).uuid == old(self).uuid,
            final(self).spans == old(self).spans,
            value_set(old(self).attributes@, final(self).attributes@, key@, value),
    {
        let converted: Value = value.into();
        self.attributes.insert(key, converted);
        assert(self.attributes@[key@] == converted);
    }

    /// The identifier under which the batch is sent.
    pub fn uuid(&self) -> (id: &str)
        ensures
            id@ == self.uuid@,
    {
        self.uuid.as_str()
    }

    /// A short description of the batch: how many spans and attributes it
    /// holds.
    pub fn display(&self) -> (text: String)
        ensures
            text@ == "<SpanBatch spans:"@ + decimal(self.spans@.len()) + " attributes:"@ + decimal(
                self.attributes.spec_len(),
            ) + ">"@,
    {
        let mut text = String::from_str("<SpanBatch spans:");
        push_decimal(&mut text, self.spans.len() as u64);
        text.append(" attributes:");
        push_decimal(&mut text, self.attributes.len() as u64);
        text.append(">");
        text
    }

    /// The payload of the batch, made of its spans and its attributes as
    /// they are rendered in `spans` and `attributes`. The attributes are
    /// left out where the batch has none.
    pub fn frame(&self, spans: &Vec<String>, attributes: &str) -> (text: String)
        ensures
            text@ == payload_text(
                "spans"@,
                spans@,
                if self.attributes.spec_len() == 0 {
                    None
                } else {
                    Some(attributes@)
                },
            ),
    {
        if self.attributes.is_empty() {
            payload("spans", spans, None)
        } else {
            payload("spans", spans, Some(attributes))
        }
    }

    /// Splits the batch in half: the first half of the spans stays, the
    /// second moves into a new batch with the same attributes, which is
    /// returned. Both batches get a fresh identifier.
    pub fn split(&mut self) -> (half: SpanBatch)
        ensures
            final(self).spans@ == old(self).spans@.subrange(
                0,
                split_point(old(self).spans@.len()) as int,
            ),
            half.spans@ == old(self).spans@.subrange(
                split_point(old(self).spans@.len()) as int,
                old(self).spans@.len() as int,
            ),
            final(self).attributes@ == old(self).attributes@,
            half.attributes@ == old(self).attributes@,
            is_uuid_text(final(self).uuid@),
            is_uuid_text(half.uuid@),
    {
        let stays = new_uuid();
        let moves = new_uuid();
        self.split_as(stays, moves)
    }

    /// Splits the batch in half as `split` does, with `stays` as the new
    /// identifier of this batch and `moves` as that of the one returned.
    /// Where the two differ from each other and from the identifier that
    /// the batch had, so do the identifiers of the two batches.
    pub fn split_as(&mut self, stays: String, moves: String) -> (half: SpanBatch)
        ensures
            final(self).uuid == stays,
            half.uuid == moves,
            stays@ != moves@ ==> final(self).uuid@ != half.uuid@,
            stays@ != old(self).uuid@ ==> final(self).uuid@ != old(self).uuid@,
            moves@ != old(self).uuid@ ==> half.uuid@ != old(self).uuid@,
            final(self).spans@ == old(self).spans@.subrange(
                0,
                split_point(old(self).spans@.len()) as int,
            ),
            half.spans@ == old(self).spans@.subrange(
                split_point(old(self).spans@.len()) as int,
                old(self).spans@.len() as int,
            ),
            final(self).attributes@ == old(self).attributes@,
            half.attributes@ == old(self).attributes@,
    {
        self.uuid = stays;
        let spans = split_records(&mut self.spans);
        SpanBatch { uuid: moves, spans, attributes: self.attributes.duplicate() }
    }
}

} // verus!
