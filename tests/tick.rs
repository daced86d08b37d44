use ticker::codec::{TickHistory, Time};
use ticker::tick::{compact, query_embedded_ticks, tick_cutoff, TickError, TickRecord};

#[test]
fn epoch_in_reference_zone() {
    // 1970-01-01T00:00Z is 20:00 of the day before, four hours behind.
    let r = TickRecord { id: 1, tick_type: 2, created_at: 0 };
    assert_eq!(compact(&r), Some(TickHistory { type_id: 2, time: Time { hour: 20, minute: 0 } }));
}

#[test]
fn minutes_are_truncated() {
    // 2023-11-14T22:13:20Z is 18:13:20 local.
    let r = TickRecord { id: 9, tick_type: 1, created_at: 1_700_000_000 };
    assert_eq!(compact(&r), Some(TickHistory { type_id: 1, time: Time { hour: 18, minute: 13 } }));
}

#[test]
fn out_of_range_instant_has_no_compact_form() {
    let r = TickRecord { id: 1, tick_type: 1, created_at: i64::MAX };
    assert_eq!(compact(&r), None);
    assert_eq!(query_embedded_ticks(&vec![r]), Err(TickError::TimestampOutOfRange));
}

#[test]
fn stored_ticks_encode() {
    let records = vec![
        TickRecord { id: 1, tick_type: 2, created_at: 1_700_000_000 },
        TickRecord { id: 2, tick_type: 3, created_at: 0 },
    ];
    assert_eq!(query_embedded_ticks(&records), Ok(vec![0, 2, 2, 18, 13, 3, 20, 0]));
    assert_eq!(query_embedded_ticks(&Vec::new()), Ok(vec![0, 0]));
}

#[test]
fn too_many_stored_ticks() {
    let records = vec![TickRecord { id: 1, tick_type: 2, created_at: 0 }; 65536];
    assert_eq!(query_embedded_ticks(&records), Err(TickError::TooManyRecords));
}

#[test]
fn cutoff_is_six_in_the_morning_local() {
    // At the epoch the local date is 1969-12-31; 06:00 there is 10:00Z.
    assert_eq!(tick_cutoff(0), Some(-50_400));
    // 2023-11-14T22:13:20Z: local date 2023-11-14, 06:00 local is 10:00Z.
    assert_eq!(tick_cutoff(1_700_000_000), Some(1_699_956_000));
    assert_eq!(tick_cutoff(i64::MAX), None);
}
