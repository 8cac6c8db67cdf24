use device_gateway::models::{
    ApiResponse, DeviceSignal, DeviceSignalRequest, Field, Tag, TimeSeriesPoint, Timestamp,
    ValidationError,
};

fn sample(unit: Option<&str>) -> DeviceSignal {
    DeviceSignal {
        id: Some(7),
        device_id: "d1".to_string(),
        signal_type: "temp".to_string(),
        value_bits: 21.5f64.to_bits(),
        unit: unit.map(|u| u.to_string()),
        timestamp: Timestamp { seconds: 1_700_000_000, nanos: 123_456_789 },
        metadata: None,
    }
}

fn tag(name: &str, value: &str) -> Tag {
    Tag { name: name.to_string(), value: value.to_string() }
}

#[test]
fn point_of_signal_with_unit() {
    let signal = sample(Some("C"));
    let point = TimeSeriesPoint::from(&signal);
    assert_eq!(point.measurement, "device_signals");
    assert_eq!(
        point.tags,
        vec![tag("device_id", "d1"), tag("signal_type", "temp"), tag("unit", "C")]
    );
    assert_eq!(point.fields, vec![Field { name: "value".to_string(), value_bits: 21.5f64.to_bits() }]);
    assert_eq!(f64::from_bits(point.fields[0].value_bits), 21.5);
    assert_eq!(point.timestamp, signal.timestamp);
}

#[test]
fn point_of_signal_without_unit() {
    let signal = sample(None);
    let point = TimeSeriesPoint::from(&signal);
    assert_eq!(point.measurement, "device_signals");
    assert_eq!(point.tags, vec![tag("device_id", "d1"), tag("signal_type", "temp")]);
    assert_eq!(point.fields.len(), 1);
    assert_eq!(point.timestamp, Timestamp { seconds: 1_700_000_000, nanos: 123_456_789 });
}

#[test]
fn point_derivation_is_repeatable() {
    let signal = sample(Some("C"));
    assert_eq!(TimeSeriesPoint::from(&signal), TimeSeriesPoint::from(&signal));
}

#[test]
fn timestamp_millis_rounds_towards_the_past() {
    assert_eq!(Timestamp { seconds: 1_700_000_000, nanos: 123_456_789 }.millis(), 1_700_000_000_123);
    assert_eq!(Timestamp { seconds: 0, nanos: 999_999 }.millis(), 0);
    assert_eq!(Timestamp { seconds: -1, nanos: 999_000_000 }.millis(), -1);
    assert_eq!(Timestamp { seconds: -2, nanos: 1_500_000 }.millis(), -1_999);
    assert_eq!(
        Timestamp { seconds: i64::MAX, nanos: 0 }.millis(),
        i64::MAX as i128 * 1000
    );
}

#[test]
fn valid_signal_passes() {
    assert_eq!(sample(Some("C")).validate(), Ok(()));
    let mut negative = sample(None);
    negative.value_bits = (-0.0f64).to_bits();
    assert_eq!(negative.validate(), Ok(()));
    let mut largest = sample(None);
    largest.value_bits = f64::MAX.to_bits();
    assert_eq!(largest.validate(), Ok(()));
}

#[test]
fn empty_device_is_rejected_first() {
    let mut signal = sample(None);
    signal.device_id = String::new();
    signal.signal_type = String::new();
    signal.value_bits = f64::NAN.to_bits();
    assert_eq!(signal.validate(), Err(ValidationError::EmptyDeviceId));
}

#[test]
fn empty_signal_type_is_rejected() {
    let mut signal = sample(None);
    signal.signal_type = String::new();
    assert_eq!(signal.validate(), Err(ValidationError::EmptySignalType));
}

#[test]
fn non_finite_values_are_rejected() {
    for value in [f64::NAN, f64::INFINITY, f64::NEG_INFINITY] {
        let mut signal = sample(None);
        signal.value_bits = value.to_bits();
        assert_eq!(signal.validate(), Err(ValidationError::NonFiniteValue));
    }
}

#[test]
fn with_id_keeps_an_identifier() {
    let signal = sample(None).with_id(99);
    assert_eq!(signal.id, Some(7));
    assert_eq!(signal.device_id, "d1");
}

#[test]
fn with_id_fills_a_missing_identifier() {
    let mut signal = sample(Some("C"));
    signal.id = None;
    let expected = DeviceSignal { id: Some(99), ..signal.clone() };
    assert_eq!(signal.with_id(99), expected);
}

#[test]
fn stream_key_joins_device_and_type() {
    assert_eq!(sample(None).stream_key(), "d1_temp");
    let mut signal = sample(None);
    signal.device_id = "a_b".to_string();
    signal.signal_type = String::new();
    assert_eq!(signal.stream_key(), "a_b_");
}

#[test]
fn request_becomes_signal() {
    let request = DeviceSignalRequest {
        device_id: "d9".to_string(),
        signal_type: "humidity".to_string(),
        value_bits: 40.25f64.to_bits(),
        unit: Some("%".to_string()),
        metadata: Some("{\"room\":3}".to_string()),
    };
    let at = Timestamp { seconds: 5, nanos: 6 };
    let signal = request.into_signal(42, at);
    assert_eq!(
        signal,
        DeviceSignal {
            id: Some(42),
            device_id: "d9".to_string(),
            signal_type: "humidity".to_string(),
            value_bits: 40.25f64.to_bits(),
            unit: Some("%".to_string()),
            timestamp: at,
            metadata: Some("{\"room\":3}".to_string()),
        }
    );
}

#[test]
fn response_success_carries_data() {
    let response = ApiResponse::success(5u32);
    assert!(response.success);
    assert_eq!(response.message, "Success");
    assert_eq!(response.data, Some(5));
}

#[test]
fn response_error_carries_message() {
    let response: ApiResponse<u32> = ApiResponse::error("broken".to_string());
    assert!(!response.success);
    assert_eq!(response.message, "broken");
    assert_eq!(response.data, None);
}
