//! The compact tick history: a big-endian 16-bit count followed by three
//! bytes per tick, `[type, hour, minute]`.
use vstd::prelude::*;

verus! {

/// The most records that the 16-bit count can declare.
pub const MAX_RECORDS: usize = 65535;

/// A time of day, to the minute, in the reference time zone.
#[derive(Clone, Copy, Debug, PartialEq, Eq, Structural)]
pub struct Time {
    pub hour: u8,
    pub minute: u8,
}

/// One tick in its compact form: its type and the time of day it happened.
#[derive(Clone, Copy, Debug, PartialEq, Eq, Structural)]
pub struct TickHistory {
    pub type_id: u8,
    pub time: Time,
}

impl Time {
    /// Reads the hour byte at `at` and the minute byte after it.
    pub fn read(bytes: &[u8], at: usize) -> (r: Self)
        requires
            at + 2 <= bytes@.len(),
        ensures
            r == time_at(bytes@, at as int),
    {
        Time { hour: bytes[at], minute: bytes[at + 1] }
    }
}

impl TickHistory {
    /// Reads the three bytes of one record, starting at `at`.
    pub fn read(bytes: &[u8], at: usize) -> (r: Self)
        requires
            at + 3 <= bytes@.len(),
        ensures
            r == record_at(bytes@, at as int),
    {
        let type_id = bytes[at];
        let time = Time::read(bytes, at + 1);
        TickHistory { type_id, time }
    }
}

/// The time whose hour byte stands at `at`.
pub open spec fn time_at(bytes: Seq<u8>, at: int) -> Time {
    Time { hour: bytes[at], minute: bytes[at + 1] }
}

/// The record whose first byte stands at `at`.
pub open spec fn record_at(bytes: Seq<u8>, at: int) -> TickHistory {
    TickHistory { type_id: bytes[at], time: time_at(bytes, at + 1) }
}

/// The three bytes of a record.
pub open spec fn record_bytes(t: TickHistory) -> Seq<u8> {
    seq![t.type_id, t.time.hour, t.time.minute]
}

/// The bytes of the records, three for each, in order.
pub open spec fn records_bytes(ts: Seq<TickHistory>) -> Seq<u8> {
    Seq::new(3 * ts.len(), |j: int| record_bytes(ts[j / 3])[j % 3])
}

/// A count as two bytes, most significant first.
pub open spec fn be16(n: nat) -> Seq<u8> {
    seq![(n / 256) as u8, (n % 256) as u8]
}

/// The compact history of a list of records.
pub open spec fn encode_spec(ts: Seq<TickHistory>) -> Seq<u8> {
    be16(ts.len()) + records_bytes(ts)
}

/// The count that a buffer's two leading bytes declare.
pub open spec fn declared_count(bytes: Seq<u8>) -> nat {
    (bytes[0] * 256 + bytes[1]) as nat
}

/// The records a buffer holds, or `None` where it is shorter than its count
/// declares. Bytes past the declared records are ignored.
pub open spec fn decode_spec(bytes: Seq<u8>) -> Option<Seq<TickHistory>> {
    if bytes.len() < 2 || bytes.len() < 2 + 3 * declared_count(bytes) {
        None
    } else {
        Some(Seq::new(declared_count(bytes), |i: int| record_at(bytes, 2 + 3 * i)))
    }
}

/// Why a list of records has no compact form.
#[derive(Clone, Copy, Debug, PartialEq, Eq, Structural)]
pub enum EncodeError {
    /// More records than a 16-bit count can declare.
    TooManyRecords,
}

/// The compact history of `records`; refused where there are more than the
/// count can declare.
pub fn encode_tick_history(records: &Vec<TickHistory>) -> (r: Result<Vec<u8>, EncodeError>)
    ensures
        records@.len() <= MAX_RECORDS <==> r is Ok,
        r matches Ok(b) ==> b@ == encode_spec(records@),
{
    let n = records.len();
    if n > MAX_RECORDS {
        return Err(EncodeError::TooManyRecords);
    }
    let mut out: Vec<u8> = Vec::new();
    out.push((n / 256) as u8);
    out.push((n % 256) as u8);
    let mut i: usize = 0;
    while i < n
        invariant
            n == records@.len(),
            n <= MAX_RECORDS,
            i <= n,
            out@ == be16(n as nat) + records_bytes(records@.subrange(0, i as int)),
        decreases n - i,
    {
        let t = records[i];
        out.push(t.type_id);
        out.push(t.time.hour);
        out.push(t.time.minute);
        proof {
            let done = records@.subrange(0, i as int);
            let next = records@.subrange(0, i + 1);
            assert forall|j: int| 0 <= j < 3 * next.len() implies #[trigger] records_bytes(next)[j]
                == (records_bytes(done) + record_bytes(t))[j] by {
                if j < 3 * i {
                    assert(next[j / 3] == done[j / 3]);
                } else {
                    assert(j / 3 == i);
                }
            }
            assert(records_bytes(next) =~= records_bytes(done) + record_bytes(t));
            assert(out@ =~= be16(n as nat) + records_bytes(next));
        }
        i = i + 1;
    }
    assert(records@.subrange(0, n as int) =~= records@);
    Ok(out)
}

/// Why a buffer could not be decoded.
#[derive(Clone, Copy, Debug, PartialEq, Eq, Structural)]
pub enum DecodeError {
    /// The buffer is shorter than its count prefix declares.
    Truncated,
    /// The count exceeds what the destination can hold.
    TooManyRecords,
}

/// Decoding into a destination that holds at most `capacity` records.
pub open spec fn decode_bounded(bytes: Seq<u8>, capacity: nat) -> Result<
    Seq<TickHistory>,
    DecodeError,
> {
    if bytes.len() < 2 {
        Err(DecodeError::Truncated)
    } else if declared_count(bytes) > capacity {
        Err(DecodeError::TooManyRecords)
    } else {
        match decode_spec(bytes) {
            Some(ts) => Ok(ts),
            None => Err(DecodeError::Truncated),
        }
    }
}

/// A buffer shorter than `2 + 3 * count`, for the count its own prefix
/// declares, decodes to nothing, whatever the destination's capacity.
pub proof fn lemma_short_buffer_refused(bytes: Seq<u8>, capacity: nat)
    requires
        bytes.len() < 2 || bytes.len() < 2 + 3 * declared_count(bytes),
    ensures
        decode_spec(bytes) is None,
        decode_bounded(bytes, capacity) is Err,
{
}

/// Decoding the compact form of at most `MAX_RECORDS` records gives back the
/// same records, in order.
pub proof fn lemma_round_trip(records: Seq<TickHistory>)
    requires
        records.len() <= MAX_RECORDS,
    ensures
        decode_spec(encode_spec(records)) == Some(records),
{
    let b = encode_spec(records);
    let n = records.len();
    assert(declared_count(b) == n);
    assert forall|i: int| 0 <= i < n implies #[trigger] record_at(b, 2 + 3 * i) == records[i] by {
        assert((3 * i) / 3 == i);
        assert((3 * i + 1) / 3 == i && (3 * i + 1) % 3 == 1);
        assert((3 * i + 2) / 3 == i && (3 * i + 2) % 3 == 2);
        assert((3 * i) % 3 == 0);
    }
    assert(Seq::new(n, |i: int| record_at(b, 2 + 3 * i)) =~= records);
}

} // verus!
