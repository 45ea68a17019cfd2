use smog_rs::acquisition::SensorTask;
use smog_rs::queue::DeliveryQueue;
use smog_rs::reading::{compensation_for, complete_triple, read_sensor_data, Reading, Sample, Triple};
use smog_rs::reboot::{RebootLatch, RebootReason};
use smog_rs::wire::encode_payload;

fn full_sample() -> Sample {
    Sample { temperature: Some(2150), humidity: Some(4530), pressure: Some(101325) }
}

#[test]
fn reading_needs_all_three_values() {
    let cases = [
        Sample { temperature: None, humidity: Some(4530), pressure: Some(101325) },
        Sample { temperature: Some(2150), humidity: None, pressure: Some(101325) },
        Sample { temperature: Some(2150), humidity: Some(4530), pressure: None },
        Sample { temperature: None, humidity: None, pressure: None },
    ];
    for s in cases.iter() {
        assert!(complete_triple(s).is_none());
        assert!(read_sensor_data(s, Some(100), true, 5, "UTC").is_none());
        assert!(read_sensor_data(s, None, true, 5, "UTC").is_none());
    }
    assert!(read_sensor_data(&full_sample(), None, false, 5, "UTC").is_some());
    assert!(read_sensor_data(&full_sample(), Some(100), false, 5, "UTC").is_some());
}

#[test]
fn compensation_rounds_and_clamps() {
    let c = compensation_for(&Triple { temperature: 2150, humidity: 4530, pressure: 101325 });
    assert_eq!((c.humidity, c.temperature), (45, 22));
    let c = compensation_for(&Triple { temperature: -2150, humidity: 4549, pressure: 0 });
    assert_eq!((c.humidity, c.temperature), (45, -22));
    let c = compensation_for(&Triple { temperature: -4500, humidity: 10550, pressure: 0 });
    assert_eq!((c.humidity, c.temperature), (100, -40));
    let c = compensation_for(&Triple { temperature: 9000, humidity: -300, pressure: 0 });
    assert_eq!((c.humidity, c.temperature), (0, 85));
    let c = compensation_for(&Triple { temperature: 8549, humidity: 49, pressure: 0 });
    assert_eq!((c.humidity, c.temperature), (0, 85));
}

#[test]
fn end_to_end_reading_without_voc_is_enqueued_and_encoded() {
    let sample = full_sample();
    let reading = read_sensor_data(&sample, None, true, 1_700_000_000, "Europe/Madrid").unwrap();
    assert_eq!(reading.pressure, 101325);
    assert_eq!(reading.voc, None);
    assert_eq!(reading.temperature, 2150);
    assert_eq!(reading.humidity, 4530);
    assert!(reading.time_synced);
    assert_eq!(reading.timezone, "Europe/Madrid");

    let mut task = SensorTask::new(0, 60_000);
    let mut queue = DeliveryQueue::new();
    let mut latch = RebootLatch::new();
    let report = task.handle_reading(reading, 60_000, &mut queue, &mut latch);
    assert!(report.enqueued);
    assert!(!report.stuck);
    let posted = queue.try_dequeue().unwrap();
    let body = encode_payload(&posted);
    assert!(body.contains("\"pressure\":1013.25"));
    assert!(body.contains("\"voc\":null"));
    assert_eq!(
        body,
        "{\"temperature\":21.5,\"humidity\":45.3,\"pressure\":1013.25,\"voc\":null,\"time_synced\":true,\"timestamp_unix_s\":1700000000,\"timezone\":\"Europe/Madrid\"}"
    );
}

#[test]
fn payload_numbers_and_escaping() {
    let r = Reading {
        temperature: -5,
        humidity: 2100,
        pressure: 99999,
        voc: Some(137),
        time_synced: false,
        timestamp_unix_s: -42,
        timezone: "a\"b\\c\n\u{1}".to_string(),
    };
    assert_eq!(
        encode_payload(&r),
        "{\"temperature\":-0.05,\"humidity\":21.0,\"pressure\":999.99,\"voc\":137,\"time_synced\":false,\"timestamp_unix_s\":-42,\"timezone\":\"a\\\"b\\\\c\\n\\u0001\"}"
    );
    let r = Reading {
        temperature: i32::MIN,
        humidity: 10,
        pressure: 0,
        voc: Some(0),
        time_synced: true,
        timestamp_unix_s: i64::MIN,
        timezone: String::new(),
    };
    assert_eq!(
        encode_payload(&r),
        "{\"temperature\":-21474836.48,\"humidity\":0.1,\"pressure\":0.0,\"voc\":0,\"time_synced\":true,\"timestamp_unix_s\":-9223372036854775808,\"timezone\":\"\"}"
    );
}

#[test]
fn delivery_waits_for_interval_and_drops_when_full() {
    let mut task = SensorTask::new(1_000, 15_000);
    let mut queue = DeliveryQueue::new();
    let mut latch = RebootLatch::new();
    let mk = || read_sensor_data(&full_sample(), Some(50), true, 0, "UTC").unwrap();
    assert!(!task.handle_reading(mk(), 2_000, &mut queue, &mut latch).enqueued);
    assert!(task.handle_reading(mk(), 16_000, &mut queue, &mut latch).enqueued);
    assert_eq!(task.last_send_ms, 16_000);
    assert!(!task.handle_reading(mk(), 30_999, &mut queue, &mut latch).enqueued);
    assert!(task.handle_reading(mk(), 31_000, &mut queue, &mut latch).enqueued);
    assert_eq!(queue.len(), 2);
    let report = task.handle_reading(mk(), 50_000, &mut queue, &mut latch);
    assert!(!report.enqueued);
    assert_eq!(task.last_send_ms, 31_000);
    assert_eq!(queue.len(), 2);
    assert!(latch.take_request().is_none());
}

#[test]
fn stuck_sensor_requests_restart() {
    let mut task = SensorTask::new(0, 1_000_000);
    let mut queue = DeliveryQueue::new();
    let mut latch = RebootLatch::new();
    for i in 0..19u64 {
        let r = read_sensor_data(&full_sample(), Some(1), true, 0, "UTC").unwrap();
        assert!(!task.handle_reading(r, 60_000 + i, &mut queue, &mut latch).stuck);
    }
    assert!(latch.take_request().is_none());
    let r = read_sensor_data(&full_sample(), Some(1), true, 0, "UTC").unwrap();
    assert!(task.handle_reading(r, 70_000, &mut queue, &mut latch).stuck);
    assert_eq!(latch.take_request(), Some(RebootReason::SensorStuck));
    assert_eq!(latch.take_request(), None);
}
