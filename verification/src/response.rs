//! What an ingest endpoint answered, and what that answer asks of the
//! sender.

use crate::time::Duration;
use vstd::prelude::*;
use vstd::utf8::{encode_utf8, is_ascii_chars, is_ascii_chars_encode_utf8};

verus! {

/// One header line of a request or response: a name and a value, both as
/// the bytes that travel on the wire.
#[derive(Debug)]
pub struct Header {
    pub name: Vec<u8>,
    pub value: Vec<u8>,
}

/// The part of an endpoint's answer that decides what happens to a batch.
#[derive(Debug)]
pub struct Response {
    pub status: u16,
    pub headers: Vec<Header>,
}

/// What is to be done with a batch once the endpoint has answered.
#[derive(Clone, Copy, Debug, PartialEq, Eq, Structural)]
pub enum SendableState {
    /// Nothing more is sent: the batch arrived or is given up.
    Done,
    /// The batch is sent again, after the given wait or, with `None`, after
    /// the wait the backoff sequence holds.
    Retry(Option<Duration>),
    /// The batch is too large: it is halved and both halves are sent.
    Split,
}

/// Why a response carries no usable `Retry-After` wait.
#[derive(Clone, Copy, Debug, PartialEq, Eq, Structural)]
pub enum RetryAfterError {
    /// No header of that name is present.
    Missing,
    /// The value holds a byte outside visible ASCII.
    NotText,
    /// The value is not a whole number of seconds that fits 64 bits.
    NotSeconds,
}

/// The lower-case form of an ASCII letter; any other byte unchanged.
pub open spec fn ascii_lower(b: u8) -> u8 {
    if 0x41 <= b <= 0x5a {
        (b + 0x20) as u8
    } else {
        b
    }
}

/// Header names are equal up to the case of ASCII letters.
pub open spec fn same_header_name(a: Seq<u8>, b: Seq<u8>) -> bool {
    &&& a.len() == b.len()
    &&& forall|i: int| 0 <= i < a.len() ==> ascii_lower(#[trigger] a[i]) == ascii_lower(b[i])
}

/// The name of the header by which an endpoint asks for a wait.
pub open spec fn retry_after_name() -> Seq<u8> {
    encode_utf8("retry-after"@)
}

/// The value of the first header called `name`, if there is one.
pub open spec fn header_value(headers: Seq<Header>, name: Seq<u8>) -> Option<Seq<u8>>
    decreases headers.len(),
{
    if headers.len() == 0 {
        None
    } else if same_header_name(headers[0].name@, name) {
        Some(headers[0].value@)
    } else {
        header_value(headers.subrange(1, headers.len() as int), name)
    }
}

/// A byte that may stand in a header value read as text: printable ASCII
/// or a tab.
pub open spec fn is_visible_ascii(b: u8) -> bool {
    (0x20 <= b < 0x7f) || b == 0x09
}

/// Every byte of `s` is visible ASCII.
pub open spec fn is_text(s: Seq<u8>) -> bool {
    forall|i: int| 0 <= i < s.len() ==> is_visible_ascii(#[trigger] s[i])
}

/// A decimal digit.
pub open spec fn is_digit(b: u8) -> bool {
    0x30 <= b <= 0x39
}

/// Every byte of `s` is a decimal digit.
pub open spec fn all_digits(s: Seq<u8>) -> bool {
    forall|i: int| 0 <= i < s.len() ==> is_digit(#[trigger] s[i])
}

/// The number that the decimal digits `s` write, most significant first.
pub open spec fn digits_value(s: Seq<u8>) -> nat
    decreases s.len(),
{
    if s.len() == 0 {
        0
    } else {
        digits_value(s.drop_last()) * 10 + (s.last() - 0x30) as nat
    }
}

/// `s` without one leading plus sign.
pub open spec fn without_plus(s: Seq<u8>) -> Seq<u8> {
    if s.len() > 0 && s[0] == 0x2b {
        s.subrange(1, s.len() as int)
    } else {
        s
    }
}

/// The unsigned 64-bit number written in `s`: an optional plus sign, then
/// at least one digit and nothing else, the value within range.
pub open spec fn parse_seconds(s: Seq<u8>) -> Option<u64> {
    let d = without_plus(s);
    if d.len() > 0 && all_digits(d) && digits_value(d) <= u64::MAX {
        Some(digits_value(d) as u64)
    } else {
        None
    }
}

/// The wait that the `Retry-After` header of `headers` asks for.
pub open spec fn retry_after(headers: Seq<Header>) -> Result<u64, RetryAfterError> {
    match header_value(headers, retry_after_name()) {
        None => Err(RetryAfterError::Missing),
        Some(v) => if !is_text(v) {
            Err(RetryAfterError::NotText)
        } else {
            match parse_seconds(v) {
                Some(secs) => Ok(secs),
                None => Err(RetryAfterError::NotSeconds),
            }
        },
    }
}

/// Statuses that no repetition of the request can mend.
pub open spec fn is_rejected(status: u16) -> bool {
    status == 400 || status == 401 || status == 403 || status == 404 || status == 405
        || status == 409 || status == 410 || status == 411
}

/// What a response with `status` and `headers` asks of the sender.
pub open spec fn classify(status: u16, headers: Seq<Header>) -> SendableState {
    if 200 <= status <= 299 {
        SendableState::Done
    } else if is_rejected(status) {
        SendableState::Done
    } else if status == 413 {
        SendableState::Split
    } else if status == 429 {
        match retry_after(headers) {
            Ok(secs) => SendableState::Retry(Some(Duration::from_secs(secs))),
            Err(_) => SendableState::Done,
        }
    } else {
        SendableState::Retry(None)
    }
}

/// The name of the header is `retry-after` in ASCII, a byte for each
/// character.
pub proof fn lemma_retry_after_name()
    ensures
        retry_after_name() == seq![
            0x72u8, 0x65, 0x74, 0x72, 0x79, 0x2d, 0x61, 0x66, 0x74, 0x65, 0x72,
        ],
{
    reveal_strlit("retry-after");
    assert(is_ascii_chars("retry-after"@));
    is_ascii_chars_encode_utf8("retry-after"@);
    assert(retry_after_name() =~= seq![
        0x72u8, 0x65, 0x74, 0x72, 0x79, 0x2d, 0x61, 0x66, 0x74, 0x65, 0x72,
    ]);
}

/// Every status from 200 to 299 ends the delivery, whatever the headers.
pub proof fn lemma_success_is_done(status: u16, headers: Seq<Header>)
    requires
        200 <= status <= 299,
    ensures
        classify(status, headers) == SendableState::Done,
{
}

/// Each of the statuses 400, 401, 403, 404, 405, 409, 410 and 411 ends the
/// delivery, whatever the headers: the batch is not sent again.
pub proof fn lemma_rejection_is_done(status: u16, headers: Seq<Header>)
    requires
        is_rejected(status),
    ensures
        classify(status, headers) == SendableState::Done,
{
}

/// Status 413 always asks for a split, whatever the headers.
pub proof fn lemma_too_large_is_split(headers: Seq<Header>)
    ensures
        classify(413, headers) == SendableState::Split,
{
}

/// Status 429 asks for a retry after the seconds that the `Retry-After`
/// header names; where the header is missing or names no number of
/// seconds, it ends the delivery.
pub proof fn lemma_throttled(headers: Seq<Header>)
    ensures
        retry_after(headers) matches Ok(secs) ==> classify(429, headers) == SendableState::Retry(
            Some(Duration::from_secs(secs)),
        ),
        retry_after(headers) is Err ==> classify(429, headers) == SendableState::Done,
        header_value(headers, retry_after_name()) is None ==> classify(429, headers)
            == SendableState::Done,
        header_value(headers, retry_after_name()) matches Some(value) && parse_seconds(value)
            is None ==> classify(429, headers) == SendableState::Done,
{
}

/// Every status that is not a success, a rejection, 413 or 429 asks for a
/// retry after the wait of the backoff sequence.
pub proof fn lemma_other_is_retry(status: u16, headers: Seq<Header>)
    requires
        !(200 <= status <= 299),
        !is_rejected(status),
        status != 413,
        status != 429,
    ensures
        classify(status, headers) == SendableState::Retry(None),
{
}

/// Appending a digit multiplies by ten and adds: the value never shrinks.
pub proof fn lemma_digits_value_push(s: Seq<u8>, b: u8)
    ensures
        digits_value(s.push(b)) == digits_value(s) * 10 + (b - 0x30) as nat,
{
    assert(s.push(b).drop_last() =~= s);
}

/// A number whose leading digits already exceed a bound exceeds it too.
pub proof fn lemma_digits_value_prefix(s: Seq<u8>, k: int)
    requires
        0 <= k <= s.len(),
        all_digits(s),
    ensures
        digits_value(s.subrange(0, k)) <= digits_value(s),
    decreases s.len() - k,
{
    if k == s.len() {
        assert(s.subrange(0, k) =~= s);
    } else {
        lemma_digits_value_prefix(s, k + 1);
        let p = s.subrange(0, k);
        assert(s.subrange(0, k + 1) =~= p.push(s[k]));
        lemma_digits_value_push(p, s[k]);
    }
}

fn lower(b: u8) -> (l: u8)
    ensures
        l == ascii_lower(b),
{
    if 0x41 <= b && b <= 0x5a {
        b + 0x20
    } else {
        b
    }
}

/// Whether two header names are equal up to the case of ASCII letters.
pub fn names_match(a: &[u8], b: &[u8]) -> (same: bool)
    ensures
        same == same_header_name(a@, b@),
{
    if a.len() != b.len() {
        return false;
    }
    let mut i: usize = 0;
    while i < a.len()
        invariant
            a.len() == b.len(),
            i <= a.len(),
            forall|j: int| 0 <= j < i ==> ascii_lower(#[trigger] a@[j]) == ascii_lower(b@[j]),
        decreases a.len() - i,
    {
        if lower(a[i]) != lower(b[i]) {
            return false;
        }
        i = i + 1;
    }
    true
}

/// The value of the first header of `headers` called `name`.
pub fn find_header<'a>(headers: &'a Vec<Header>, name: &[u8]) -> (found: Option<&'a Vec<u8>>)
    ensures
        match found {
            Some(v) => header_value(headers@, name@) == Some(v@),
            None => header_value(headers@, name@) is None,
        },
{
    let mut i: usize = 0;
    assert(headers@.subrange(0, headers.len() as int) =~= headers@);
    while i < headers.len()
        invariant
            i <= headers.len(),
            header_value(headers@, name@) == header_value(
                headers@.subrange(i as int, headers.len() as int),
                name@,
            ),
        decreases headers.len() - i,
    {
        let ghost rest = headers@.subrange(i as int, headers.len() as int);
        assert(rest[0] == headers@[i as int]);
        assert(rest.subrange(1, rest.len() as int) =~= headers@.subrange(
            i as int + 1,
            headers.len() as int,
        ));
        if names_match(headers[i].name.as_slice(), name) {
            return Some(&headers[i].value);
        }
        i = i + 1;
    }
    None
}

/// Whether every byte of `value` is visible ASCII.
pub fn value_is_text(value: &[u8]) -> (text: bool)
    ensures
        text == is_text(value@),
{
    let mut i: usize = 0;
    while i < value.len()
        invariant
            i <= value.len(),
            forall|j: int| 0 <= j < i ==> is_visible_ascii(#[trigger] value@[j]),
        decreases value.len() - i,
    {
        let b: u8 = value[i];
        if !((0x20 <= b && b < 0x7f) || b == 0x09) {
            return false;
        }
        i = i + 1;
    }
    true
}

/// Reads an unsigned 64-bit number in decimal: an optional plus sign, then
/// digits only.
pub fn parse_u64(text: &[u8]) -> (number: Option<u64>)
    ensures
        number == parse_seconds(text@),
{
    let start: usize = if text.len() > 0 && text[0] == 0x2b {
        1
    } else {
        0
    };
    let ghost digits = without_plus(text@);
    assert(digits =~= text@.subrange(start as int, text.len() as int));
    if start == text.len() {
        return None;
    }
    let mut value: u64 = 0;
    let mut i: usize = start;
    while i < text.len()
        invariant
            start <= i <= text.len(),
            digits == without_plus(text@),
            digits == text@.subrange(start as int, text.len() as int),
            all_digits(digits.subrange(0, i - start)),
            value == digits_value(digits.subrange(0, i - start)),
        decreases text.len() - i,
    {
        let b: u8 = text[i];
        let ghost seen = digits.subrange(0, i - start);
        assert(digits[i - start] == b);
        if !(0x30 <= b && b <= 0x39) {
            assert(!is_digit(digits[i - start]));
            return None;
        }
        proof {
            assert(digits.subrange(0, i - start + 1) =~= seen.push(b));
            lemma_digits_value_push(seen, b);
            assert(all_digits(seen.push(b))) by {
                assert forall|j: int| 0 <= j < seen.push(b).len() implies is_digit(
                    #[trigger] seen.push(b)[j],
                ) by {
                    if j < seen.len() {
                        assert(seen.push(b)[j] == seen[j]);
                    }
                }
            }
        }
        let digit: u64 = (b - 0x30) as u64;
        let next: Option<u64> = match value.checked_mul(10) {
            Some(tens) => tens.checked_add(digit),
            None => None,
        };
        match next {
            Some(n) => {
                value = n;
            },
            None => {
                proof {
                    // The digits read so far are already out of range; if the
                    // rest are digits too, the whole number is larger still.
                    if all_digits(digits) {
                        lemma_digits_value_prefix(digits, i - start + 1);
                    }
                }
                return None;
            },
        }
        i = i + 1;
    }
    assert(digits.subrange(0, i - start) =~= digits);
    Some(value)
}

} // verus!
