//! Metrics: gauges, counts and summaries, and the batches in which they
//! are sent.
//!
//! A measured value is a 64 bit floating point number. It is held as its
//! IEEE 754 bit pattern: nothing here computes with it.

use crate::attribute::{Attributes, Value};
use crate::endpoint::{decimal, push_decimal};
use crate::span::{is_uuid_text, new_uuid, split_point, split_records, value_set};
use crate::wire::{payload, payload_text};
use std::time::SystemTime;
use vstd::prelude::*;
use vstd::string::StringExecFns;

verus! {

/// A point in time, as the system clock counts it.
#[verifier::external_type_specification]
#[verifier::external_body]
pub struct ExSystemTime(SystemTime);

/// The reason one point in time does not lie after another.
#[verifier::external_type_specification]
#[verifier::external_body]
pub struct ExSystemTimeError(std::time::SystemTimeError);

/// `SystemTime::now` reads the system clock. Nothing is said of the time:
/// it is the clock's.
pub assume_specification[ SystemTime::now ]() -> SystemTime;

/// `SystemTime::duration_since` gives the time from `earlier` to `at`, or an
/// error where there is none. Nothing is said of which: that is for the two
/// times, of which nothing is known here.
pub assume_specification[ SystemTime::duration_since ](at: &SystemTime, earlier: SystemTime) -> Result<
    std::time::Duration,
    std::time::SystemTimeError,
>;

/// The epoch, `SystemTime::UNIX_EPOCH`: the time from which the system
/// clock counts.
#[verifier::external_body]
fn epoch() -> (start: SystemTime) {
    SystemTime::UNIX_EPOCH
}

/// `Duration::as_millis` gives the whole milliseconds of a duration. Nothing
/// is said of the number: nothing is known here of the duration.
pub assume_specification[ std::time::Duration::as_millis ](elapsed: &std::time::Duration) -> u128;

/// Why the time could not be given.
#[derive(Clone, Copy, Debug, PartialEq, Eq, Structural)]
pub enum ClockError {
    /// The system clock stands before the epoch.
    BeforeEpoch,
    /// The milliseconds since the epoch do not fit 64 bits.
    OutOfRange,
}

/// Why a metric cannot be recorded.
#[derive(Clone, Copy, Debug, PartialEq, Eq, Structural)]
pub enum MetricError {
    /// The metric has no value.
    MissingValue,
    /// The metric has no interval, and its kind needs one.
    MissingInterval,
}

/// A count of milliseconds as a 64 bit number, if it fits.
pub open spec fn in_range(millis: u128) -> Result<u64, ClockError> {
    if millis <= u64::MAX {
        Ok(millis as u64)
    } else {
        Err(ClockError::OutOfRange)
    }
}

/// A count of milliseconds as a 64 bit number, if it fits.
pub fn millis_in_range(millis: u128) -> (fitted: Result<u64, ClockError>)
    ensures
        fitted == in_range(millis),
{
    if millis <= 0xffff_ffff_ffff_ffff {
        Ok(millis as u64)
    } else {
        Err(ClockError::OutOfRange)
    }
}

/// The time now, in milliseconds since the epoch.
///
/// The clock is read, and the time from the epoch to what it shows is
/// taken. Where there is none, because the clock stands before the epoch,
/// the result is `BeforeEpoch`; else it is the whole milliseconds of that
/// time, or `OutOfRange` where they do not fit. The contract says so over
/// what the clock and the two conversions can give; the start that the
/// time is taken from is the epoch, which it does not name.
pub fn now_as_millis() -> (now: Result<u64, ClockError>)
    ensures
        exists|
            at: SystemTime,
            start: SystemTime,
            elapsed: Result<std::time::Duration, std::time::SystemTimeError>,
        |
            {
                &&& #[trigger] call_ensures(SystemTime::duration_since, (&at, start), elapsed)
                &&& call_ensures(SystemTime::now, (), at)
                &&& match elapsed {
                    Ok(whole) => exists|millis: u128| #[trigger]
                        call_ensures(std::time::Duration::as_millis, (&whole,), millis) && now
                            == in_range(millis),
                    Err(_) => now == Err::<u64, ClockError>(ClockError::BeforeEpoch),
                }
            },
{
    let at = SystemTime::now();
    let start = epoch();
    let elapsed = at.duration_since(start);
    assert(call_ensures(SystemTime::now, (), at));
    assert(call_ensures(SystemTime::duration_since, (&at, start), elapsed));
    match elapsed {
        Ok(whole) => {
            let millis = whole.as_millis();
            assert(call_ensures(std::time::Duration::as_millis, (&whole,), millis));
            millis_in_range(millis)
        },
        Err(_) => Err(ClockError::BeforeEpoch),
    }
}

/// What a metric measured.
#[derive(Clone, Copy, Debug, PartialEq, Eq, Structural)]
pub enum Measured {
    /// One number: the value of a gauge or a count.
    Number(u64),
    /// A summary of several measurements.
    Summary(SummaryValue),
}

/// The value of a summary: how many measurements there were, their sum,
/// the least and the greatest.
#[derive(Clone, Copy, Debug, PartialEq, Eq, Structural)]
pub struct SummaryValue {
    pub count: u64,
    pub sum: u64,
    pub min: u64,
    pub max: u64,
}

/// A metric as it goes into a payload: the members of the object that
/// stands for it.
#[derive(Debug, PartialEq)]
pub struct MetricData {
    pub name: String,
    pub typename: &'static str,
    pub value: Option<Measured>,
    pub timestamp: Option<u64>,
    pub interval: Option<u64>,
    pub attributes: Attributes,
}

/// What can be recorded in a batch of metrics.
///
/// A batch takes what an implementation hands it as it comes: it records a
/// metric that `valid` accepts, as `json` gives it.
pub trait Metric {
    /// Checks that the metric has all that its kind needs, and gives it the
    /// time now as its timestamp if it has none.
    fn valid(&mut self) -> Result<(), MetricError>;

    /// The metric as it goes into a payload.
    fn json(&self) -> MetricData;
}

/// The timestamp that a metric has once it is checked at the time `now`:
/// its own if it had one, else `now`.
pub open spec fn stamp(timestamp: Option<u64>, now: u64) -> Option<u64> {
    match timestamp {
        Some(own) => Some(own),
        None => Some(now),
    }
}

/// Whether a metric with or without a value and an interval is complete,
/// where its kind does or does not need an interval.
pub open spec fn completeness(has_value: bool, has_interval: bool, needs_interval: bool) -> Result<
    (),
    MetricError,
> {
    if !has_value {
        Err(MetricError::MissingValue)
    } else if needs_interval && !has_interval {
        Err(MetricError::MissingInterval)
    } else {
        Ok(())
    }
}

/// The time that a reading of the clock gives to stamp a metric with: the
/// time read, or zero where the clock could not give it.
pub open spec fn or_zero(read: Result<u64, ClockError>) -> u64 {
    match read {
        Ok(millis) => millis,
        Err(_) => 0,
    }
}

/// The time to stamp a metric with: the time now, or zero where the clock
/// cannot give it.
fn now_or_zero() -> (now: u64)
    ensures
        exists|read: Result<u64, ClockError>| #[trigger]
            call_ensures(now_as_millis, (), read) && now == or_zero(read),
{
    let read = now_as_millis();
    assert(call_ensures(now_as_millis, (), read));
    match read {
        Ok(now) => now,
        Err(_) => 0,
    }
}

/// A gauge: a value at one point in time.
#[derive(Debug, PartialEq)]
pub struct GaugeMetric {
    pub name: String,
    pub typename: &'static str,
    pub value: Option<u64>,
    pub timestamp: Option<u64>,
    pub attributes: Attributes,
}

/// A count: how often something happened in an interval.
#[derive(Debug, PartialEq)]
pub struct CountMetric {
    pub name: String,
    pub typename: &'static str,
    pub value: Option<u64>,
    pub timestamp: Option<u64>,
    pub interval: Option<u64>,
    pub attributes: Attributes,
}

/// A summary: count, sum, least and greatest of the measurements of an
/// interval.
#[derive(Debug, PartialEq)]
pub struct SummaryMetric {
    pub name: String,
    pub typename: &'static str,
    pub value: Option<SummaryValue>,
    pub timestamp: Option<u64>,
    pub interval: Option<u64>,
    pub attributes: Attributes,
}

impl GaugeMetric {
    /// Creates a gauge called `name`, without a value or a timestamp.
    pub fn new(name: &str) -> (metric: GaugeMetric)
        ensures
            metric.name@ == name@,
            metric.typename@ == "gauge"@,
            metric.value is None,
            metric.timestamp is None,
            metric.attributes@ == Map::<Seq<char>, Value>::empty(),
    {
        GaugeMetric {
            name: name.to_owned(),
            typename: "gauge",
            value: None,
            timestamp: None,
            attributes: Attributes::new(),
        }
    }

    /// Sets the value, as the bit pattern of a 64 bit floating point
    /// number.
    pub fn value(self, value: u64) -> (metric: GaugeMetric)
        ensures
            metric == (GaugeMetric { value: Some(value), ..self }),
    {
        let mut metric = self;
        metric.value = Some(value);
        metric
    }

    /// Sets the timestamp, in milliseconds since the epoch.
    pub fn timestamp(self, timestamp: u64) -> (metric: GaugeMetric)
        ensures
            metric == (GaugeMetric { timestamp: Some(timestamp), ..self }),
    {
        let mut metric = self;
        metric.timestamp = Some(timestamp);
        metric
    }

    /// Sets an attribute of the gauge.
    pub fn attribute<T: Into<Value>>(self, key: &str, value: T) -> (metric: GaugeMetric)
        ensures
            metric.name == self.name,
            metric.typename == self.typename,
            metric.value == self.value,
            metric.timestamp == self.timestamp,
            value_set(self.attributes@, metric.attributes@, key@, value),
    {
        let mut metric = self;
        let converted: Value = value.into();
        metric.attributes.insert(key, converted);
        assert(metric.attributes@[key@] == converted);
        metric
    }

    /// Checks the gauge at the time `now`: it needs a value, and gets `now`
    /// as its timestamp if it has none.
    pub fn valid_at(&mut self, now: u64) -> (checked: Result<(), MetricError>)
        ensures
            checked == completeness(old(self).value is Some, true, false),
            *final(self) == (GaugeMetric {
                timestamp: stamp(old(self).timestamp, now),
                ..*old(self)
            }),
    {
        if self.timestamp.is_none() {
            self.timestamp = Some(now);
        }
        if self.value.is_none() {
            Err(MetricError::MissingValue)
        } else {
            Ok(())
        }
    }
}

impl Metric for GaugeMetric {
    fn valid(&mut self) -> (checked: Result<(), MetricError>)
        ensures
            checked == completeness(old(self).value is Some, true, false),
            final(self).name == old(self).name,
            final(self).typename == old(self).typename,
            final(self).value == old(self).value,
            final(self).attributes == old(self).attributes,
            old(self).timestamp is Some ==> final(self).timestamp == old(self).timestamp,
            final(self).timestamp is Some,
            exists|read: Result<u64, ClockError>| #[trigger]
                call_ensures(now_as_millis, (), read) && final(self).timestamp == stamp(
                    old(self).timestamp,
                    or_zero(read),
                ),
    {
        self.valid_at(now_or_zero())
    }

    fn json(&self) -> (data: MetricData)
        ensures
            data.name == self.name,
            data.typename == self.typename,
            data.value == (match self.value {
                Some(bits) => Some(Measured::Number(bits)),
                None => None,
            }),
            data.timestamp == self.timestamp,
            data.interval == None::<u64>,
            data.attributes@ == self.attributes@,
    {
        MetricData {
            name: self.name.clone(),
            typename: self.typename,
            value: match self.value {
                Some(bits) => Some(Measured::Number(bits)),
                None => None,
            },
            timestamp: self.timestamp,
            interval: None,
            attributes: self.attributes.duplicate(),
        }
    }
}

impl CountMetric {
    /// Creates a count called `name`, without a value, a timestamp or an
    /// interval.
    pub fn new(name: &str) -> (metric: CountMetric)
        ensures
            metric.name@ == name@,
            metric.typename@ == "count"@,
            metric.value is None,
            metric.timestamp is None,
            metric.interval is None,
            metric.attributes@ == Map::<Seq<char>, Value>::empty(),
    {
        CountMetric {
            name: name.to_owned(),
            typename: "count",
            value: None,
            timestamp: None,
            interval: None,
            attributes: Attributes::new(),
        }
    }

    /// Sets the value, as the bit pattern of a 64 bit floating point
    /// number.
    pub fn value(self, value: u64) -> (metric: CountMetric)
        ensures
            metric == (CountMetric { value: Some(value), ..self }),
    {
        let mut metric = self;
        metric.value = Some(value);
        metric
    }

    /// Sets the timestamp, in milliseconds since the epoch.
    pub fn timestamp(self, timestamp: u64) -> (metric: CountMetric)
        ensures
            metric == (CountMetric { timestamp: Some(timestamp), ..self }),
    {
        let mut metric = self;
        metric.timestamp = Some(timestamp);
        metric
    }

    /// Sets the interval that was counted over, in milliseconds.
    pub fn interval(self, interval: u64) -> (metric: CountMetric)
        ensures
            metric == (CountMetric { interval: Some(interval), ..self }),
    {
        let mut metric = self;
        metric.interval = Some(interval);
        metric
    }

    /// Sets an attribute of the count.
    pub fn attribute<T: Into<Value>>(self, key: &str, value: T) -> (metric: CountMetric)
        ensures
            metric.name == self.name,
            metric.typename == self.typename,
            metric.value == self.value,
            metric.timestamp == self.timestamp,
            metric.interval == self.interval,
            value_set(self.attributes@, metric.attributes@, key@, value),
    {
        let mut metric = self;
        let converted: Value = value.into();
        metric.attributes.insert(key, converted);
        assert(metric.attributes@[key@] == converted);
        metric
    }

    /// Checks the count at the time `now`: it needs a value and an
    /// interval, and gets `now` as its timestamp if it has none.
    pub fn valid_at(&mut self, now: u64) -> (checked: Result<(), MetricError>)
        ensures
            checked == completeness(old(self).value is Some, old(self).interval is Some, true),
            *final(self) == (CountMetric {
                timestamp: stamp(old(self).timestamp, now),
                ..*old(self)
            }),
    {
        if self.timestamp.is_none() {
            self.timestamp = Some(now);
        }
        if self.value.is_none() {
            return Err(MetricError::MissingValue);
        }
        if self.interval.is_none() {
            return Err(MetricError::MissingInterval);
        }
        Ok(())
    }
}

impl Metric for CountMetric {
    fn valid(&mut self) -> (checked: Result<(), MetricError>)
        ensures
            checked == completeness(old(self).value is Some, old(self).interval is Some, true),
            final(self).name == old(self).name,
            final(self).typename == old(self).typename,
            final(self).value == old(self).value,
            final(self).interval == old(self).interval,
            final(self).attributes == old(self).attributes,
            old(self).timestamp is Some ==> final(self).timestamp == old(self).timestamp,
            final(self).timestamp is Some,
            exists|read: Result<u64, ClockError>| #[trigger]
                call_ensures(now_as_millis, (), read) && final(self).timestamp == stamp(
                    old(self).timestamp,
                    or_zero(read),
                ),
    {
        self.valid_at(now_or_zero())
    }

    fn json(&self) -> (data: MetricData)
        ensures
            data.name == self.name,
            data.typename == self.typename,
            data.value == (match self.value {
                Some(bits) => Some(Measured::Number(bits)),
                None => None,
            }),
            data.timestamp == self.timestamp,
            data.interval == self.interval,
            data.attributes@ == self.attributes@,
    {
        MetricData {
            name: self.name.clone(),
            typename: self.typename,
            value: match self.value {
                Some(bits) => Some(Measured::Number(bits)),
                None => None,
            },
            timestamp: self.timestamp,
            interval: self.interval,
            attributes: self.attributes.duplicate(),
        }
    }
}

impl SummaryMetric {
    /// Creates a summary called `name`, without a value, a timestamp or an
    /// interval.
    pub fn new(name: &str) -> (metric: SummaryMetric)
        ensures
            metric.name@ == name@,
            metric.typename@ == "summary"@,
            metric.value is None,
            metric.timestamp is None,
            metric.interval is None,
            metric.attributes@ == Map::<Seq<char>, Value>::empty(),
    {
        SummaryMetric {
            name: name.to_owned(),
            typename: "summary",
            value: None,
            timestamp: None,
            interval: None,
            attributes: Attributes::new(),
        }
    }

    /// Sets the value: the number of measurements, and their sum, least
    /// and greatest as bit patterns of 64 bit floating point numbers.
    pub fn value(self, count: u64, sum: u64, min: u64, max: u64) -> (metric: SummaryMetric)
        ensures
            metric == (SummaryMetric {
                value: Some(SummaryValue { count, sum, min, max }),
                ..self
            }),
    {
        let mut metric = self;
        metric.value = Some(SummaryValue { count, sum, min, max });
        metric
    }

    /// Sets the timestamp, in milliseconds since the epoch.
    pub fn timestamp(self, timestamp: u64) -> (metric: SummaryMetric)
        ensures
            metric == (SummaryMetric { timestamp: Some(timestamp), ..self }),
    {
        let mut metric = self;
        metric.timestamp = Some(timestamp);
        metric
    }

    /// Sets the interval that was summed up, in milliseconds.
    pub fn interval(self, interval: u64) -> (metric: SummaryMetric)
        ensures
            metric == (SummaryMetric { interval: Some(interval), ..self }),
    {
        let mut metric = self;
        metric.interval = Some(interval);
        metric
    }

    /// Sets an attribute of the summary.
    pub fn attribute<T: Into<Value>>(self, key: &str, value: T) -> (metric: SummaryMetric)
        ensures
            metric.name == self.name,
            metric.typename == self.typename,
            metric.value == self.value,
            metric.timestamp == self.timestamp,
            metric.interval == self.interval,
            value_set(self.attributes@, metric.attributes@, key@, value),
    {
        let mut metric = self;
        let converted: Value = value.into();
        metric.attributes.insert(key, converted);
        assert(metric.attributes@[key@] == converted);
        metric
    }

    /// Checks the summary at the time `now`: it needs a value and an
    /// interval, and gets `now` as its timestamp if it has none.
    pub fn valid_at(&mut self, now: u64) -> (checked: Result<(), MetricError>)
        ensures
            checked == completeness(old(self).value is Some, old(self).interval is Some, true),
            *final(self) == (SummaryMetric {
                timestamp: stamp(old(self).timestamp, now),
                ..*old(self)
            }),
    {
        if self.timestamp.is_none() {
            self.timestamp = Some(now);
        }
        if self.value.is_none() {
            return Err(MetricError::MissingValue);
        }
        if self.interval.is_none() {
            return Err(MetricError::MissingInterval);
        }
        Ok(())
    }
}

impl Metric for SummaryMetric {
    fn valid(&mut self) -> (checked: Result<(), MetricError>)
        ensures
            checked == completeness(old(self).value is Some, old(self).interval is Some, true),
            final(self).name == old(self).name,
            final(self).typename == old(self).typename,
            final(self).value == old(self).value,
            final(self).interval == old(self).interval,
            final(self).attributes == old(self).attributes,
            old(self).timestamp is Some ==> final(self).timestamp == old(self).timestamp,
            final(self).timestamp is Some,
            exists|read: Result<u64, ClockError>| #[trigger]
                call_ensures(now_as_millis, (), read) && final(self).timestamp == stamp(
                    old(self).timestamp,
                    or_zero(read),
                ),
    {
        self.valid_at(now_or_zero())
    }

    fn json(&self) -> (data: MetricData)
        ensures
            data.name == self.name,
            data.typename == self.typename,
            data.value == (match self.value {
                Some(summary) => Some(Measured::Summary(summary)),
                None => None,
            }),
            data.timestamp == self.timestamp,
            data.interval == self.interval,
            data.attributes@ == self.attributes@,
    {
        MetricData {
            name: self.name.clone(),
            typename: self.typename,
            value: match self.value {
                Some(summary) => Some(Measured::Summary(summary)),
                None => None,
            },
            timestamp: self.timestamp,
            interval: self.interval,
            attributes: self.attributes.duplicate(),
        }
    }
}

/// A collection of metrics and the attributes they share.
#[derive(Debug, PartialEq)]
pub struct MetricBatch {
    /// The identifier under which the batch is sent.
    pub uuid: String,
    /// The metrics, in the order in which they were recorded.
    pub metrics: Vec<MetricData>,
    /// The attributes that all metrics of the batch share.
    pub attributes: Attributes,
}

impl MetricBatch {
    /// Creates an empty batch.
    pub fn new() -> (batch: MetricBatch)
        ensures
            batch.metrics@ == Seq::<MetricData>::empty(),
            batch.attributes@ == Map::<Seq<char>, Value>::empty(),
            is_uuid_text(batch.uuid@),
    {
        MetricBatch { uuid: new_uuid(), metrics: Vec::new(), attributes: Attributes::new() }
    }

    /// Sets an attribute that all metrics of the batch share.
    pub fn add_attribute<T: Into<Value>>(&mut self, key: &str, value: T)
        ensures
            final(self).uuid == old(self).uuid,
            final(self).metrics == old(self).metrics,
            value_set(old(self).attributes@, final(self).attributes@, key@, value),
    {
        let converted: Value = value.into();
        self.attributes.insert(key, converted);
        assert(self.attributes@[key@] == converted);
    }

    /// Adds `data` to the batch if the check of its metric came out as
    /// `Ok`, and hands the outcome of the check on.
    pub fn record_checked(&mut self, checked: Result<(), MetricError>, data: MetricData) -> (recorded:
        Result<(), MetricError>)
        ensures
            recorded == checked,
            final(self).uuid == old(self).uuid,
            final(self).attributes == old(self).attributes,
            final(self).metrics@ == if checked is Ok {
                old(self).metrics@.push(data)
            } else {
                old(self).metrics@
            },
    {
        if checked.is_ok() {
            self.metrics.push(data);
        }
        checked
    }

    /// Checks `metric` and, if the check accepts it, adds it to the batch.
    ///
    /// The outcome is the one that the metric's `valid` gives for it. Where
    /// that is `Ok`, what `json` gives for the metric as the check left it
    /// is added behind the metrics that were there; where it is an error,
    /// the batch stays as it was.
    pub fn record<T: Metric>(&mut self, metric: T) -> (recorded: Result<(), MetricError>)
        ensures
            final(self).uuid == old(self).uuid,
            final(self).attributes == old(self).attributes,
            exists|checked: &mut T|
                {
                    &&& #[trigger] call_ensures(T::valid, (checked,), recorded)
                    &&& *checked == metric
                    &&& recorded is Ok ==> call_ensures(
                        T::json,
                        (&*final(checked),),
                        final(self).metrics@.last(),
                    )
                },
            match recorded {
                Ok(()) => {
                    &&& final(self).metrics@.len() == old(self).metrics@.len() + 1
                    &&& final(self).metrics@.drop_last() == old(self).metrics@
                },
                Err(_) => final(self).metrics@ == old(self).metrics@,
            },
    {
        let mut metric = metric;
        let ghost before = metric;
        let checked = metric.valid();
        assert(exists|m: &mut T|
            *m == before && *final(m) == metric && call_ensures(T::valid, (m,), checked));
        let ghost witness = choose|m: &mut T|
            *m == before && *final(m) == metric && call_ensures(T::valid, (m,), checked);
        match checked {
            Ok(()) => {
                let data = metric.json();
                let recorded = self.record_checked(checked, data);
                assert(self.metrics@.drop_last() =~= old(self).metrics@);
                assert(self.metrics@.last() == data);
                assert(call_ensures(T::valid, (witness,), recorded));
                recorded
            },
            Err(e) => {
                assert(call_ensures(T::valid, (witness,), Err::<(), MetricError>(e)));
                Err(e)
            },
        }
    }

    /// The identifier under which the batch is sent.
    pub fn uuid(&self) -> (id: &str)
        ensures
            id@ == self.uuid@,
    {
        self.uuid.as_str()
    }

    /// A short description of the batch: how many metrics it holds.
    pub fn display(&self) -> (text: String)
        ensures
            text@ == "<MetricBatch, "@ + decimal(self.metrics@.len()) + " data points>"@,
    {
        let mut text = String::from_str("<MetricBatch, ");
        push_decimal(&mut text, self.metrics.len() as u64);
        text.append(" data points>");
        text
    }

    /// The payload of the batch, made of its metrics and its attributes as
    /// they are rendered in `metrics` and `attributes`. The attributes are
    /// left out where the batch has none.
    pub fn frame(&self, metrics: &Vec<String>, attributes: &str) -> (text: String)
        ensures
            text@ == payload_text(
                "metrics"@,
                metrics@,
                if self.attributes.spec_len() == 0 {
                    None
                } else {
                    Some(attributes@)
                },
            ),
    {
        if self.attributes.is_empty() {
            payload("metrics", metrics, None)
        } else {
            payload("metrics", metrics, Some(attributes))
        }
    }

    /// Splits the batch in half: the first half of the metrics stays, the
    /// second moves into a new batch with the same attributes, which is
    /// returned. Both batches get a fresh identifier.
    pub fn split(&mut self) -> (half: MetricBatch)
        ensures
            final(self).metrics@ == old(self).metrics@.subrange(
                0,
                split_point(old(self).metrics@.len()) as int,
            ),
            half.metrics@ == old(self).metrics@.subrange(
                split_point(old(self).metrics@.len()) as int,
                old(self).metrics@.len() as int,
            ),
            final(self).attributes@ == old(self).attributes@,
            half.attributes@ == old(self).attributes@,
            is_uuid_text(final(self).uuid@),
            is_uuid_text(half.uuid@),
    {
        let stays = new_uuid();
        let moves = new_uuid();
        self.split_as(stays, moves)
    }

    /// Splits the batch in half as `split` does, with `stays` as the new
    /// identifier of this batch and `moves` as that of the one returned.
    /// Where the two differ from each other and from the identifier that
    /// the batch had, so do the identifiers of the two batches.
    pub fn split_as(&mut self, stays: String, moves: String) -> (half: MetricBatch)
        ensures
            final(self).uuid == stays,
            half.uuid == moves,
            stays@ != moves@ ==> final(self).uuid@ != half.uuid@,
            stays@ != old(self).uuid@ ==> final(self).uuid@ != old(self).uuid@,
            moves@ != old(self).uuid@ ==> half.uuid@ != old(self).uuid@,
            final(self).metrics@ == old(self).metrics@.subrange(
                0,
                split_point(old(self).metrics@.len()) as int,
            ),
            half.metrics@ == old(self).metrics@.subrange(
                split_point(old(self).metrics@.len()) as int,
                old(self).metrics@.len() as int,
            ),
            final(self).attributes@ == old(self).attributes@,
            half.attributes@ == old(self).attributes@,
    {
        self.uuid = stays;
        let metrics = split_records(&mut self.metrics);
        MetricBatch { uuid: moves, metrics, attributes: self.attributes.duplicate() }
    }
}

} // verus!
