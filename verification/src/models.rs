//! The data model: signals, requests, responses and time-series points.

use vstd::prelude::*;

verus! {

/// Measurement name under which every signal is stored in the time-series
/// store.
pub open spec fn measurement_name() -> Seq<char> {
    "device_signals"@
}

/// An instant in UTC: whole seconds since the Unix epoch and the
/// nanoseconds into that second.
#[derive(Clone, Copy, Debug, PartialEq, Eq, Structural)]
pub struct Timestamp {
    pub seconds: i64,
    pub nanos: u32,
}

impl Timestamp {
    /// Milliseconds since the epoch, rounded towards the past.
    pub open spec fn spec_millis(self) -> int {
        self.seconds * 1000 + self.nanos / 1_000_000
    }

    /// Milliseconds since the epoch, rounded towards the past.
    pub fn millis(&self) -> (r: i128)
        ensures
            r == self.spec_millis(),
    {
        let whole: i128 = self.seconds as i128 * 1000;
        let part: i128 = (self.nanos / 1_000_000) as i128;
        whole + part
    }
}

/// One telemetry record of a device.
///
/// `value_bits` holds the measurement as the bit pattern of a 64-bit IEEE 754
/// number. `metadata` is a JSON document in text form, carried through
/// untouched.
#[derive(Clone, Debug, PartialEq, Eq)]
pub struct DeviceSignal {
    pub id: Option<u128>,
    pub device_id: String,
    pub signal_type: String,
    pub value_bits: u64,
    pub unit: Option<String>,
    pub timestamp: Timestamp,
    pub metadata: Option<String>,
}

/// The text of an optional string.
pub open spec fn optional_text(text: Option<String>) -> Option<Seq<char>> {
    match text {
        Some(t) => Some(t@),
        None => None,
    }
}

/// What a signal is, as a value.
pub struct SignalModel {
    pub id: Option<u128>,
    pub device_id: Seq<char>,
    pub signal_type: Seq<char>,
    pub value_bits: u64,
    pub unit: Option<Seq<char>>,
    pub timestamp: Timestamp,
    pub metadata: Option<Seq<char>>,
}

impl View for DeviceSignal {
    type V = SignalModel;

    open spec fn view(&self) -> SignalModel {
        SignalModel {
            id: self.id,
            device_id: self.device_id@,
            signal_type: self.signal_type@,
            value_bits: self.value_bits,
            unit: optional_text(self.unit),
            timestamp: self.timestamp,
            metadata: optional_text(self.metadata),
        }
    }
}

/// Why a signal may not enter the coordinator.
#[derive(Clone, Copy, Debug, PartialEq, Eq, Structural)]
pub enum ValidationError {
    EmptyDeviceId,
    EmptySignalType,
    NonFiniteValue,
}

/// Whether a bit pattern stands for a finite number: its eleven exponent
/// bits are not all set.
pub open spec fn finite_bits(bits: u64) -> bool {
    (bits >> 52) & 0x7ff != 0x7ff
}

impl SignalModel {
    /// The signal's invariant: both names are non-empty and the value is a
    /// finite number.
    pub open spec fn valid(self) -> bool {
        &&& self.device_id.len() > 0
        &&& self.signal_type.len() > 0
        &&& finite_bits(self.value_bits)
    }

    /// The first part of the invariant that fails, if any.
    pub open spec fn defect(self) -> Option<ValidationError> {
        if self.device_id.len() == 0 {
            Some(ValidationError::EmptyDeviceId)
        } else if self.signal_type.len() == 0 {
            Some(ValidationError::EmptySignalType)
        } else if !finite_bits(self.value_bits) {
            Some(ValidationError::NonFiniteValue)
        } else {
            None
        }
    }

    /// The same signal with an identifier: its own where it has one, else
    /// `fresh`.
    pub open spec fn with_id(self, fresh: u128) -> SignalModel {
        SignalModel {
            id: Some(
                match self.id {
                    Some(id) => id,
                    None => fresh,
                },
            ),
            ..self
        }
    }

    /// Key under which the signal is published to the broker: device and
    /// signal type, joined by an underscore.
    pub open spec fn stream_key(self) -> Seq<char> {
        self.device_id + "_"@ + self.signal_type
    }

    /// The tags of the signal's point, as pairs of name and value: device,
    /// signal type, and the unit where the signal has one.
    pub open spec fn tags(self) -> Seq<(Seq<char>, Seq<char>)> {
        let fixed = seq![("device_id"@, self.device_id), ("signal_type"@, self.signal_type)];
        match self.unit {
            Some(unit) => fixed.push(("unit"@, unit)),
            None => fixed,
        }
    }

    /// The point that the signal projects to.
    pub open spec fn point(self) -> PointModel {
        PointModel {
            measurement: measurement_name(),
            tags: self.tags(),
            fields: seq![("value"@, self.value_bits)],
            timestamp: self.timestamp,
        }
    }
}

impl DeviceSignal {
    /// Checks the invariant, naming the first part that fails.
    pub fn validate(&self) -> (r: Result<(), ValidationError>)
        ensures
            r is Ok <==> self@.valid(),
            r is Err ==> self@.defect() == Some(r->Err_0),
    {
        if self.device_id.as_str().unicode_len() == 0 {
            Err(ValidationError::EmptyDeviceId)
        } else if self.signal_type.as_str().unicode_len() == 0 {
            Err(ValidationError::EmptySignalType)
        } else if (self.value_bits >> 52) & 0x7ff == 0x7ff {
            Err(ValidationError::NonFiniteValue)
        } else {
            Ok(())
        }
    }

    /// The same signal with an identifier: its own where it has one, else
    /// `fresh`.
    pub fn with_id(self, fresh: u128) -> (r: DeviceSignal)
        ensures
            r@ == self@.with_id(fresh),
    {
        let id = match self.id {
            Some(id) => id,
            None => fresh,
        };
        DeviceSignal {
            id: Some(id),
            device_id: self.device_id,
            signal_type: self.signal_type,
            value_bits: self.value_bits,
            unit: self.unit,
            timestamp: self.timestamp,
            metadata: self.metadata,
        }
    }

    /// Key under which the signal is published to the broker.
    pub fn stream_key(&self) -> (key: String)
        ensures
            key@ == self@.stream_key(),
    {
        let mut key = self.device_id.clone();
        key.append("_");
        key.append(self.signal_type.as_str());
        key
    }
}

/// A signal as a producer sends it: without identifier and timestamp.
#[derive(Clone, Debug, PartialEq, Eq)]
pub struct DeviceSignalRequest {
    pub device_id: String,
    pub signal_type: String,
    pub value_bits: u64,
    pub unit: Option<String>,
    pub metadata: Option<String>,
}

impl DeviceSignalRequest {
    /// The signal that the request becomes under the given identifier and
    /// timestamp.
    pub open spec fn accepted(self, id: u128, timestamp: Timestamp) -> SignalModel {
        SignalModel {
            id: Some(id),
            device_id: self.device_id@,
            signal_type: self.signal_type@,
            value_bits: self.value_bits,
            unit: optional_text(self.unit),
            timestamp,
            metadata: optional_text(self.metadata),
        }
    }

    /// Completes the request into a signal with the identifier and the
    /// timestamp assigned at the boundary.
    pub fn into_signal(self, id: u128, timestamp: Timestamp) -> (signal: DeviceSignal)
        ensures
            signal@ == self.accepted(id, timestamp),
    {
        DeviceSignal {
            id: Some(id),
            device_id: self.device_id,
            signal_type: self.signal_type,
            value_bits: self.value_bits,
            unit: self.unit,
            timestamp,
            metadata: self.metadata,
        }
    }
}

/// Envelope of every answer to a caller.
#[derive(Clone, Debug, PartialEq, Eq)]
pub struct ApiResponse<T> {
    pub success: bool,
    pub message: String,
    pub data: Option<T>,
}

impl<T> ApiResponse<T> {
    /// A successful answer that carries `data`.
    pub fn success(data: T) -> (r: Self)
        ensures
            r.success,
            r.message@ == "Success"@,
            r.data == Some(data),
    {
        ApiResponse { success: true, message: String::from_str("Success"), data: Some(data) }
    }

    /// A failed answer that carries only `message`.
    pub fn error(message: String) -> (r: Self)
        ensures
            !r.success,
            r.message == message,
            r.data is None,
    {
        ApiResponse { success: false, message, data: None }
    }
}

/// One tag of a point: a name and a text value.
#[derive(Clone, Debug, PartialEq, Eq)]
pub struct Tag {
    pub name: String,
    pub value: String,
}

/// One numeric field of a point: a name and the bit pattern of its value.
#[derive(Clone, Debug, PartialEq, Eq)]
pub struct Field {
    pub name: String,
    pub value_bits: u64,
}

/// What a signal looks like to the time-series store.
#[derive(Clone, Debug, PartialEq, Eq)]
pub struct TimeSeriesPoint {
    pub measurement: String,
    pub tags: Vec<Tag>,
    pub fields: Vec<Field>,
    pub timestamp: Timestamp,
}

/// What a point is, as a value: its tags and fields as pairs of name and
/// value, in order.
pub struct PointModel {
    pub measurement: Seq<char>,
    pub tags: Seq<(Seq<char>, Seq<char>)>,
    pub fields: Seq<(Seq<char>, u64)>,
    pub timestamp: Timestamp,
}

impl PointModel {
    /// A point holds each tag name and each field name once.
    pub open spec fn wf(self) -> bool {
        &&& forall|i: int, j: int|
            0 <= i < j < self.tags.len() ==> (#[trigger] self.tags[i]).0 != (#[trigger] self.tags[j]).0
        &&& forall|i: int, j: int|
            0 <= i < j < self.fields.len() ==> (#[trigger] self.fields[i]).0 != (
            #[trigger] self.fields[j]).0
    }
}

impl View for TimeSeriesPoint {
    type V = PointModel;

    open spec fn view(&self) -> PointModel {
        PointModel {
            measurement: self.measurement@,
            tags: Seq::new(self.tags@.len(), |i: int| (self.tags@[i].name@, self.tags@[i].value@)),
            fields: Seq::new(
                self.fields@.len(),
                |i: int| (self.fields@[i].name@, self.fields@[i].value_bits),
            ),
            timestamp: self.timestamp,
        }
    }
}

impl<'a> From<&'a DeviceSignal> for TimeSeriesPoint {
    /// Projects a signal onto its point. Every signal has exactly one.
    fn from(signal: &'a DeviceSignal) -> (point: TimeSeriesPoint)
        ensures
            point@ == signal@.point(),
            point@.wf(),
    {
        let mut tags: Vec<Tag> = Vec::new();
        tags.push(Tag { name: String::from_str("device_id"), value: signal.device_id.clone() });
        tags.push(Tag { name: String::from_str("signal_type"), value: signal.signal_type.clone() });
        match &signal.unit {
            Some(unit) => {
                tags.push(Tag { name: String::from_str("unit"), value: unit.clone() });
            },
            None => {},
        }
        let mut fields: Vec<Field> = Vec::new();
        fields.push(Field { name: String::from_str("value"), value_bits: signal.value_bits });
        let point = TimeSeriesPoint {
            measurement: String::from_str("device_signals"),
            tags,
            fields,
            timestamp: signal.timestamp,
        };
        assert(point@.tags =~= signal@.tags());
        assert(point@.fields =~= seq![("value"@, signal.value_bits)]);
        proof {
            lemma_point_shape(signal@);
        }
        point
    }
}

/// The projection is stated over views, by the contract of `from` itself: no
/// equation between values is claimed for it.
impl<'a> vstd::std_specs::convert::FromSpecImpl<&'a DeviceSignal> for TimeSeriesPoint {
    open spec fn obeys_from_spec() -> bool {
        false
    }

    open spec fn from_spec(signal: &'a DeviceSignal) -> TimeSeriesPoint {
        arbitrary()
    }
}

/// The shape of every signal's point: the fixed measurement, the signal's
/// value as the one field, its timestamp, and two or three tags, with the
/// unit's tag exactly where the signal has a unit. No name occurs twice.
pub proof fn lemma_point_shape(signal: SignalModel)
    ensures
        signal.point().measurement == "device_signals"@,
        signal.point().fields == seq![("value"@, signal.value_bits)],
        signal.point().timestamp == signal.timestamp,
        signal.point().tags.len() == if signal.unit is Some {
            3int
        } else {
            2int
        },
        signal.point().tags[0] == ("device_id"@, signal.device_id),
        signal.point().tags[1] == ("signal_type"@, signal.signal_type),
        signal.unit is Some ==> signal.point().tags[2] == ("unit"@, signal.unit->Some_0),
        signal.point().wf(),
{
    reveal_strlit("device_id");
    reveal_strlit("signal_type");
    reveal_strlit("unit");
    assert("device_id"@.len() == 9);
    assert("signal_type"@.len() == 11);
    assert("unit"@.len() == 4);
}

} // verus!
