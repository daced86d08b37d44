//! The display client's copy of the server state, decoded from the raw
//! response bodies into fixed-capacity storage.
use crate::codec::{DecodeError, TickHistory, decode_bounded, decode_spec, declared_count};
use vstd::prelude::*;
use vstd::utf8::{decode_utf8, valid_utf8};

verus! {

/// The size of the buffer that receives the compact tick history.
pub const TICK_HISTORY_RX_ALLOC: usize = 2048;

/// The most records that fit in the receive buffer after the count.
pub const TICK_HISTORY_SIZE: usize = (TICK_HISTORY_RX_ALLOC - 2) / 3;

/// The size of the buffer that receives the status message.
pub const MESSAGE_SIZE: usize = 1024;

/// A list of decoded ticks with room for `TICK_HISTORY_SIZE` of them, set
/// aside once and never grown: the display client decodes into it without
/// allocating. Its contents are reached only through the functions below.
#[verifier::external_body]
pub struct TickBuffer {
    items: heapless::Vec<TickHistory, TICK_HISTORY_SIZE>,
}

/// The ticks that a buffer holds, in order.
pub uninterp spec fn buffer_items(b: TickBuffer) -> Seq<TickHistory>;

/// Relies on `heapless::Vec::new`: an empty vector.
#[verifier::external_body]
fn buffer_new() -> (r: TickBuffer)
    ensures
        buffer_items(r) == Seq::<TickHistory>::empty(),
{
    TickBuffer { items: heapless::Vec::new() }
}

/// Relies on `heapless::Vec::clear`: removes every item.
#[verifier::external_body]
fn buffer_clear(b: &mut TickBuffer)
    ensures
        buffer_items(*final(b)) == Seq::<TickHistory>::empty(),
{
    b.items.clear()
}

/// Relies on `heapless::Vec::push`: appends below capacity, and otherwise
/// refuses the item and leaves the vector as it was.
#[verifier::external_body]
fn buffer_push(b: &mut TickBuffer, t: TickHistory) -> (pushed: bool)
    ensures
        pushed <==> buffer_items(*old(b)).len() < TICK_HISTORY_SIZE,
        pushed ==> buffer_items(*final(b)) == buffer_items(*old(b)).push(t),
        !pushed ==> buffer_items(*final(b)) == buffer_items(*old(b)),
{
    b.items.push(t).is_ok()
}

/// Relies on `heapless::Vec::as_slice`: the items, in order.
#[verifier::external_body]
fn buffer_slice(b: &TickBuffer) -> (r: &[TickHistory])
    ensures
        r@ == buffer_items(*b),
        r@.len() <= TICK_HISTORY_SIZE,
{
    b.items.as_slice()
}

impl TickBuffer {
    /// An empty buffer.
    pub fn new() -> (r: Self)
        ensures
            buffer_items(r) == Seq::<TickHistory>::empty(),
    {
        buffer_new()
    }

    /// The number of ticks held.
    pub fn len(&self) -> (r: usize)
        ensures
            r == buffer_items(*self).len(),
            r <= TICK_HISTORY_SIZE,
    {
        buffer_slice(self).len()
    }

    /// A copy of the ticks held, in order.
    pub fn to_vec(&self) -> (r: Vec<TickHistory>)
        ensures
            r@ == buffer_items(*self),
    {
        let items = buffer_slice(self);
        let mut out: Vec<TickHistory> = Vec::new();
        let mut i: usize = 0;
        while i < items.len()
            invariant
                i <= items@.len(),
                out@ == items@.subrange(0, i as int),
            decreases items@.len() - i,
        {
            out.push(items[i]);
            i = i + 1;
            assert(out@ =~= items@.subrange(0, i as int));
        }
        assert(items@.subrange(0, i as int) =~= items@);
        out
    }

    /// Replaces the contents with the records of a compact tick history.
    /// A buffer shorter than its count declares, or a count over the
    /// capacity, is refused and leaves the contents as they were.
    pub fn decode_from(&mut self, bytes: &[u8]) -> (r: Result<(), DecodeError>)
        ensures
            r is Ok <==> decode_bounded(bytes@, TICK_HISTORY_SIZE as nat) is Ok,
            r matches Err(e) ==> decode_bounded(bytes@, TICK_HISTORY_SIZE as nat) == Err::<
                Seq<TickHistory>,
                DecodeError,
            >(e),
            r is Ok ==> buffer_items(*final(self)) == decode_spec(bytes@)->0,
            r is Err ==> buffer_items(*final(self)) == buffer_items(*old(self)),
            buffer_items(*final(self)).len() <= TICK_HISTORY_SIZE,
    {
        let held = self.len();
        assert(held <= TICK_HISTORY_SIZE);
        if bytes.len() < 2 {
            return Err(DecodeError::Truncated);
        }
        let count = (bytes[0] as usize) * 256 + bytes[1] as usize;
        assert(count == declared_count(bytes@));
        if count > TICK_HISTORY_SIZE {
            return Err(DecodeError::TooManyRecords);
        }
        if bytes.len() < 2 + 3 * count {
            return Err(DecodeError::Truncated);
        }
        let ghost decoded = decode_spec(bytes@)->0;
        buffer_clear(self);
        let mut i: usize = 0;
        while i < count
            invariant
                count == declared_count(bytes@),
                count <= TICK_HISTORY_SIZE,
                2 + 3 * count <= bytes@.len(),
                decoded == decode_spec(bytes@)->0,
                decoded.len() == count,
                i <= count,
                buffer_items(*self) == decoded.subrange(0, i as int),
            decreases count - i,
        {
            let t = TickHistory::read(bytes, 2 + 3 * i);
            assert(t == decoded[i as int]);
            let pushed = buffer_push(self, t);
            assert(pushed);
            i = i + 1;
            assert(buffer_items(*self) =~= decoded.subrange(0, i as int));
        }
        assert(decoded.subrange(0, i as int) =~= decoded);
        Ok(())
    }
}

/// Relies on `core::str::from_utf8`: the text of the bytes where they are
/// valid UTF-8.
#[verifier::external_body]
fn utf8_text(bytes: &[u8]) -> (r: Option<String>)
    ensures
        match r {
            Some(s) => valid_utf8(bytes@) && s@ == decode_utf8(bytes@),
            None => !valid_utf8(bytes@),
        },
{
    match core::str::from_utf8(bytes) {
        Ok(s) => Some(String::from(s)),
        Err(_) => None,
    }
}

/// Why a poll's responses were not taken into the state.
#[derive(Clone, Copy, Debug, PartialEq, Eq, Structural)]
pub enum StateError {
    /// The message body is longer than the message buffer.
    MessageTooLong,
    /// The message body is not valid UTF-8.
    InvalidMessage,
    /// The tick history body could not be decoded.
    TickHistory(DecodeError),
}

/// What the display shows: the server's message and today's ticks.
pub struct ServerState {
    pub message: String,
    pub tick_history: TickBuffer,
}

impl ServerState {
    /// The state before the first poll: no message and no ticks.
    pub fn new() -> (r: Self)
        ensures
            r.message@ == Seq::<char>::empty(),
            buffer_items(r.tick_history) == Seq::<TickHistory>::empty(),
    {
        ServerState { message: String::new(), tick_history: TickBuffer::new() }
    }

    /// Takes one poll's raw response bodies into the state. Either both parts
    /// are taken, or, on an error, the state is left exactly as it was, so
    /// that a bad poll is skipped.
    pub fn update(&mut self, raw_message: &[u8], raw_ticks: &[u8]) -> (r: Result<(), StateError>)
        ensures
            raw_message@.len() > MESSAGE_SIZE ==> r == Err::<(), StateError>(
                StateError::MessageTooLong,
            ),
            raw_message@.len() <= MESSAGE_SIZE && !valid_utf8(raw_message@) ==> r == Err::<
                (),
                StateError,
            >(StateError::InvalidMessage),
            raw_message@.len() <= MESSAGE_SIZE && valid_utf8(raw_message@) ==> (r is Ok <==> decode_bounded(
                raw_ticks@,
                TICK_HISTORY_SIZE as nat,
            ) is Ok),
            raw_message@.len() <= MESSAGE_SIZE && valid_utf8(raw_message@) ==> (decode_bounded(raw_ticks@, TICK_HISTORY_SIZE as nat) matches Err(e)
                ==> r == Err::<(), StateError>(StateError::TickHistory(e))),
            r is Ok ==> final(self).message@ == decode_utf8(raw_message@) && buffer_items(
                final(self).tick_history,
            ) == decode_spec(raw_ticks@)->0,
            r is Err ==> final(self).message@ == old(self).message@ && buffer_items(
                final(self).tick_history,
            ) == buffer_items(old(self).tick_history),
            buffer_items(final(self).tick_history).len() <= TICK_HISTORY_SIZE,
    {
        let held = self.tick_history.len();
        assert(held <= TICK_HISTORY_SIZE);
        if raw_message.len() > MESSAGE_SIZE {
            return Err(StateError::MessageTooLong);
        }
        let message = match utf8_text(raw_message) {
            Some(m) => m,
            None => {
                return Err(StateError::InvalidMessage);
            },
        };
        match self.tick_history.decode_from(raw_ticks) {
            Ok(()) => {
                self.message = message;
                Ok(())
            },
            Err(e) => Err(StateError::TickHistory(e)),
        }
    }
}

} // verus!
