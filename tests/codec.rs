use ticker::codec::{encode_tick_history, DecodeError, EncodeError, TickHistory, Time};
use ticker::device::{ServerState, TickBuffer, TICK_HISTORY_SIZE};

fn rec(type_id: u8, hour: u8, minute: u8) -> TickHistory {
    TickHistory { type_id, time: Time { hour, minute } }
}

fn three() -> Vec<TickHistory> {
    vec![rec(2, 6, 0), rec(1, 23, 59), rec(3, 0, 0)]
}

const THREE_BYTES: [u8; 11] = [0x00, 0x03, 0x02, 0x06, 0x00, 0x01, 0x17, 0x3B, 0x03, 0x00, 0x00];

#[test]
fn three_records_encode() {
    assert_eq!(encode_tick_history(&three()), Ok(THREE_BYTES.to_vec()));
}

#[test]
fn three_records_decode() {
    let mut buffer = TickBuffer::new();
    assert_eq!(buffer.decode_from(&THREE_BYTES), Ok(()));
    assert_eq!(buffer.to_vec(), three());
    assert_eq!(buffer.len(), 3);
}

#[test]
fn empty_history_round_trip() {
    let bytes = encode_tick_history(&Vec::new()).unwrap();
    assert_eq!(bytes, vec![0, 0]);
    let mut buffer = TickBuffer::new();
    buffer.decode_from(&THREE_BYTES).unwrap();
    assert_eq!(buffer.decode_from(&bytes), Ok(()));
    assert_eq!(buffer.len(), 0);
}

#[test]
fn round_trip_at_capacity() {
    let records: Vec<TickHistory> =
        (0..TICK_HISTORY_SIZE).map(|i| rec((i % 7) as u8, (i % 24) as u8, (i % 60) as u8)).collect();
    let bytes = encode_tick_history(&records).unwrap();
    assert_eq!(bytes.len(), 2 + 3 * TICK_HISTORY_SIZE);
    let mut buffer = TickBuffer::new();
    assert_eq!(buffer.decode_from(&bytes), Ok(()));
    assert_eq!(buffer.to_vec(), records);
}

#[test]
fn count_over_sixteen_bits_is_refused() {
    let records = vec![rec(1, 1, 1); 65536];
    assert_eq!(encode_tick_history(&records), Err(EncodeError::TooManyRecords));
    let records = vec![rec(1, 1, 1); 65535];
    let bytes = encode_tick_history(&records).unwrap();
    assert_eq!(&bytes[0..2], &[0xFF, 0xFF]);
    assert_eq!(bytes.len(), 2 + 3 * 65535);
}

#[test]
fn truncated_buffer_is_refused() {
    let mut buffer = TickBuffer::new();
    buffer.decode_from(&THREE_BYTES).unwrap();
    for len in 0..THREE_BYTES.len() {
        assert_eq!(buffer.decode_from(&THREE_BYTES[..len]), Err(DecodeError::Truncated));
        assert_eq!(buffer.to_vec(), three());
    }
}

#[test]
fn count_over_capacity_is_refused() {
    let count = TICK_HISTORY_SIZE + 1;
    let mut bytes = vec![(count / 256) as u8, (count % 256) as u8];
    bytes.extend(std::iter::repeat(1u8).take(3 * count));
    let mut buffer = TickBuffer::new();
    assert_eq!(buffer.decode_from(&bytes), Err(DecodeError::TooManyRecords));
    assert_eq!(buffer.len(), 0);
}

#[test]
fn trailing_bytes_are_ignored() {
    let mut bytes = THREE_BYTES.to_vec();
    bytes.resize(2048, 0);
    let mut buffer = TickBuffer::new();
    assert_eq!(buffer.decode_from(&bytes), Ok(()));
    assert_eq!(buffer.to_vec(), three());
}

#[test]
fn record_readers() {
    let bytes = [9u8, 4, 13, 45];
    assert_eq!(Time::read(&bytes, 2), Time { hour: 13, minute: 45 });
    assert_eq!(TickHistory::read(&bytes, 1), rec(4, 13, 45));
}

#[test]
fn state_takes_a_good_poll() {
    let mut state = ServerState::new();
    assert_eq!(state.update(b"hello", &THREE_BYTES), Ok(()));
    assert_eq!(state.message, "hello");
    assert_eq!(state.tick_history.to_vec(), three());
}

#[test]
fn state_skips_a_bad_poll() {
    let mut state = ServerState::new();
    state.update(b"hello", &THREE_BYTES).unwrap();
    assert_eq!(
        state.update(&[0xFF, 0xFE], &[0, 0]),
        Err(ticker::device::StateError::InvalidMessage)
    );
    assert_eq!(
        state.update(b"later", &THREE_BYTES[..7]),
        Err(ticker::device::StateError::TickHistory(DecodeError::Truncated))
    );
    assert_eq!(state.message, "hello");
    assert_eq!(state.tick_history.to_vec(), three());
}

#[test]
fn state_refuses_an_oversized_message() {
    let mut state = ServerState::new();
    state.update(b"hello", &THREE_BYTES).unwrap();
    assert_eq!(
        state.update(&vec![b'a'; ticker::device::MESSAGE_SIZE + 1], &THREE_BYTES),
        Err(ticker::device::StateError::MessageTooLong)
    );
    assert_eq!(state.update(&vec![b'a'; ticker::device::MESSAGE_SIZE], &THREE_BYTES), Ok(()));
    assert_eq!(state.message.len(), ticker::device::MESSAGE_SIZE);
}
