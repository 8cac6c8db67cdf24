//! What each sink's adapter decides: the relational store's row for a signal
//! and the signal of a row, the outcome of a broker batch, and how the
//! broker's topic listing is read as reachability.

use crate::failure::{count_failed, failed_count};
use crate::models::{optional_text, DeviceSignal, SignalModel, Timestamp};
use crate::text::{decimal, decimal_string, digit};
use vstd::prelude::*;

verus! {

/// The character of one hexadecimal digit, in lower case.
pub open spec fn hex_digit(v: nat) -> char {
    if v < 10 {
        digit(v)
    } else if v == 10 {
        'a'
    } else if v == 11 {
        'b'
    } else if v == 12 {
        'c'
    } else if v == 13 {
        'd'
    } else if v == 14 {
        'e'
    } else {
        'f'
    }
}

/// Sixteen to the power of `n`.
pub open spec fn sixteen_to(n: nat) -> nat
    decreases n,
{
    if n == 0 {
        1
    } else {
        16 * sixteen_to((n - 1) as nat)
    }
}

/// The hexadecimal digit of `id` at place `k`, counted from the most
/// significant of its 32 digits.
pub open spec fn id_digit(id: u128, k: int) -> nat {
    ((id as nat) / sixteen_to((31 - k) as nat)) % 16
}

/// An identifier in text: its 32 hexadecimal digits in lower case, most
/// significant first, in groups of 8, 4, 4, 4 and 12 with a hyphen between
/// the groups.
pub open spec fn hyphenated(id: u128) -> Seq<char> {
    Seq::new(
        36,
        |i: int|
            if i == 8 || i == 13 || i == 18 || i == 23 {
                '-'
            } else if i < 8 {
                hex_digit(id_digit(id, i))
            } else if i < 13 {
                hex_digit(id_digit(id, i - 1))
            } else if i < 18 {
                hex_digit(id_digit(id, i - 2))
            } else if i < 23 {
                hex_digit(id_digit(id, i - 3))
            } else {
                hex_digit(id_digit(id, i - 4))
            },
    )
}

/// What `uuid::Uuid::parse_str` makes of a text: the identifier it reads, as
/// the number that `Uuid::as_u128` gives, or nothing where it rejects the
/// text.
pub uninterp spec fn parsed_id(text: Seq<char>) -> Option<u128>;

/// Whether `serde_json::from_str` reads a text as one JSON value.
pub uninterp spec fn json_document(text: Seq<char>) -> bool;

/// `uuid::Error`, the error of `uuid::Uuid::parse_str`: carried through
/// without a look inside.
#[verifier::external_type_specification]
#[verifier::external_body]
pub struct ExIdError(uuid::Error);

/// Renders an identifier with `uuid::Uuid::to_string`, after
/// `Uuid::from_u128`: the hyphenated lower-case form.
#[verifier::external_body]
fn id_text(id: u128) -> (text: String)
    ensures
        text@ == hyphenated(id),
{
    uuid::Uuid::from_u128(id).to_string()
}

/// Reads an identifier with `uuid::Uuid::parse_str` and hands it out as the
/// number that `Uuid::as_u128` gives. Which texts are accepted is the outside
/// function's matter; the result is the named one.
#[verifier::external_body]
fn parse_id(text: &str) -> (r: Result<u128, uuid::Error>)
    ensures
        r is Ok <==> parsed_id(text@) is Some,
        r is Ok ==> Some(r->Ok_0) == parsed_id(text@),
{
    match uuid::Uuid::parse_str(text) {
        Ok(id) => Ok(id.as_u128()),
        Err(e) => Err(e),
    }
}

/// Renders a `uuid::Error` as text with its `Display` impl, through
/// `to_string`. Nothing is promised of the text.
#[verifier::external_body]
fn id_error_text(error: &uuid::Error) -> (text: String) {
    error.to_string()
}

/// Asks `serde_json::from_str` whether a text is one JSON value.
#[verifier::external_body]
fn is_json(text: &str) -> (r: bool)
    ensures
        r == json_document(text@),
{
    serde_json::from_str::<serde_json::Value>(text).is_ok()
}

/// A signal as the relational store holds it: the identifier in text, the
/// rest as in the signal.
#[derive(Clone, Debug, PartialEq, Eq)]
pub struct RelationalRow {
    pub id: String,
    pub device_id: String,
    pub signal_type: String,
    pub value_bits: u64,
    pub unit: Option<String>,
    pub timestamp: Timestamp,
    pub metadata: Option<String>,
}

/// Why a row and a signal could not be turned into each other.
#[derive(Clone, Debug, PartialEq, Eq)]
pub enum RowError {
    /// The signal has no identifier yet: a sink never assigns one.
    MissingId,
    /// The row's identifier is not an identifier in text; with the reason
    /// that the reader of identifiers gave.
    InvalidId(String),
}

/// What a row is, as a value.
pub struct RowModel {
    pub id: Seq<char>,
    pub device_id: Seq<char>,
    pub signal_type: Seq<char>,
    pub value_bits: u64,
    pub unit: Option<Seq<char>>,
    pub timestamp: Timestamp,
    pub metadata: Option<Seq<char>>,
}

impl View for RelationalRow {
    type V = RowModel;

    open spec fn view(&self) -> RowModel {
        RowModel {
            id: self.id@,
            device_id: self.device_id@,
            signal_type: self.signal_type@,
            value_bits: self.value_bits,
            unit: optional_text(self.unit),
            timestamp: self.timestamp,
            metadata: optional_text(self.metadata),
        }
    }
}

/// The row that holds `signal` under the identifier `id`.
pub open spec fn row_of(signal: SignalModel, id: u128) -> RowModel {
    RowModel {
        id: hyphenated(id),
        device_id: signal.device_id,
        signal_type: signal.signal_type,
        value_bits: signal.value_bits,
        unit: signal.unit,
        timestamp: signal.timestamp,
        metadata: signal.metadata,
    }
}

/// The signal that `row` holds, given the identifier read from the row and
/// whether the row's metadata is a JSON document: metadata that is none is
/// dropped.
pub open spec fn signal_of(row: RowModel, id: u128, is_document: bool) -> SignalModel {
    SignalModel {
        id: Some(id),
        device_id: row.device_id,
        signal_type: row.signal_type,
        value_bits: row.value_bits,
        unit: row.unit,
        timestamp: row.timestamp,
        metadata: if is_document {
            row.metadata
        } else {
            None
        },
    }
}

/// Whether a row's metadata is there and a JSON document.
pub open spec fn metadata_is_document(metadata: Option<Seq<char>>) -> bool {
    match metadata {
        Some(text) => json_document(text),
        None => false,
    }
}

/// The row to insert for a signal. The signal must have its identifier: a
/// sink never assigns one.
pub fn relational_row(signal: &DeviceSignal) -> (r: Result<RelationalRow, RowError>)
    ensures
        r is Ok <==> signal.id is Some,
        r is Ok ==> r->Ok_0@ == row_of(signal@, signal.id->Some_0),
        r is Err ==> r->Err_0 == RowError::MissingId,
{
    match signal.id {
        None => Err(RowError::MissingId),
        Some(id) => Ok(
            RelationalRow {
                id: id_text(id),
                device_id: signal.device_id.clone(),
                signal_type: signal.signal_type.clone(),
                value_bits: signal.value_bits,
                unit: signal.unit.clone(),
                timestamp: signal.timestamp,
                metadata: signal.metadata.clone(),
            },
        ),
    }
}

/// The signal of a row, once its identifier has been read and its metadata
/// judged: fails exactly when no identifier was read, and then with the
/// reason given; metadata that is no JSON document is dropped.
pub fn assemble_signal(row: RelationalRow, id: Result<u128, String>, is_document: bool) -> (r:
    Result<DeviceSignal, RowError>)
    ensures
        r is Ok <==> id is Ok,
        r is Ok ==> r->Ok_0@ == signal_of(row@, id->Ok_0, is_document),
        r is Err ==> r->Err_0 == RowError::InvalidId(id->Err_0),
{
    match id {
        Err(reason) => Err(RowError::InvalidId(reason)),
        Ok(id) => Ok(
            DeviceSignal {
                id: Some(id),
                device_id: row.device_id,
                signal_type: row.signal_type,
                value_bits: row.value_bits,
                unit: row.unit,
                timestamp: row.timestamp,
                metadata: if is_document {
                    row.metadata
                } else {
                    None
                },
            },
        ),
    }
}

/// The signal that a row of the relational store holds. Where the row's
/// identifier cannot be read, the error carries the reader's own reason.
pub fn signal_of_row(row: RelationalRow) -> (r: Result<DeviceSignal, RowError>)
    ensures
        r is Ok <==> parsed_id(row.id@) is Some,
        r is Ok ==> r->Ok_0@ == signal_of(
            row@,
            parsed_id(row.id@)->Some_0,
            metadata_is_document(row@.metadata),
        ),
        r is Err ==> r->Err_0 is InvalidId,
{
    let id = match parse_id(row.id.as_str()) {
        Ok(id) => Ok(id),
        Err(error) => Err(id_error_text(&error)),
    };
    let is_document = match &row.metadata {
        Some(text) => is_json(text.as_str()),
        None => false,
    };
    assemble_signal(row, id, is_document)
}

/// How many rows a query for one device's history returns where the caller
/// names no limit.
pub const DEVICE_HISTORY_LIMIT: i32 = 100;

/// How many rows a query for the latest signals returns where the caller
/// names no limit.
pub const LATEST_LIMIT: i32 = 50;

/// The row limit of a query: the caller's, or `fallback` where there is none.
pub fn row_limit(limit: Option<i32>, fallback: i32) -> (r: i32)
    ensures
        r == match limit {
            Some(n) => n,
            None => fallback,
        },
{
    match limit {
        Some(n) => n,
        None => fallback,
    }
}

/// The error text of a broker batch of which `failed` out of `total`
/// messages were not delivered.
pub open spec fn stream_batch_text(failed: nat, total: nat) -> Seq<char> {
    "Failed to send "@ + decimal(failed) + " out of "@ + decimal(total) + " messages"@
}

/// Outcome of a broker batch from the outcome of each message: it succeeds
/// exactly when every message was delivered, and else tells how many of how
/// many were not.
pub fn stream_batch_outcome(outcomes: &Vec<Result<(), String>>) -> (r: Result<(), String>)
    ensures
        r is Ok <==> failed_count(outcomes@) == 0,
        r is Err ==> r->Err_0@ == stream_batch_text(failed_count(outcomes@), outcomes@.len()),
{
    let failed = count_failed(outcomes);
    if failed == 0 {
        Ok(())
    } else {
        let mut text = String::from_str("Failed to send ");
        text.append(decimal_string(failed as u64).as_str());
        text.append(" out of ");
        text.append(decimal_string(outcomes.len() as u64).as_str());
        text.append(" messages");
        Err(text)
    }
}

/// What to do next in a batch of point writes that go out one after the
/// other.
#[derive(Debug, PartialEq, Eq)]
pub enum BatchStep {
    /// Write the point at `index`.
    Write { index: usize },
    /// Stop, with the outcome of the batch.
    Done(Result<(), String>),
}

/// The error of the first outcome that is a failure, if there is one.
pub open spec fn first_failure(outcomes: Seq<Result<(), String>>) -> Option<String>
    decreases outcomes.len(),
{
    if outcomes.len() == 0 {
        None
    } else if outcomes[0] is Err {
        Some(outcomes[0]->Err_0)
    } else {
        first_failure(outcomes.skip(1))
    }
}

/// The next step of a batch of `total` point writes after the given
/// outcomes: the first failure ends the batch with its error; without one
/// the next point is written until all are, and then the batch has
/// succeeded. An empty batch writes nothing.
pub open spec fn spec_next_point_write(total: nat, outcomes: Seq<Result<(), String>>) -> BatchStep {
    match first_failure(outcomes) {
        Some(detail) => BatchStep::Done(Err(detail)),
        None => if outcomes.len() < total {
            BatchStep::Write { index: outcomes.len() as usize }
        } else {
            BatchStep::Done(Ok(()))
        },
    }
}

/// The next step of a batch of `total` point writes after the given
/// outcomes.
pub fn next_point_write(total: usize, outcomes: &Vec<Result<(), String>>) -> (step: BatchStep)
    ensures
        step == spec_next_point_write(total as nat, outcomes@),
{
    let mut i: usize = 0;
    proof {
        assert(outcomes@.skip(0) =~= outcomes@);
    }
    while i < outcomes.len()
        invariant
            i <= outcomes.len(),
            first_failure(outcomes@) == first_failure(outcomes@.skip(i as int)),
        decreases outcomes.len() - i,
    {
        proof {
            assert(outcomes@.skip(i as int).skip(1) =~= outcomes@.skip(i + 1));
        }
        match &outcomes[i] {
            Err(detail) => {
                return BatchStep::Done(Err(detail.clone()));
            },
            Ok(_) => {},
        }
        i += 1;
    }
    if outcomes.len() < total {
        BatchStep::Write { index: outcomes.len() }
    } else {
        BatchStep::Done(Ok(()))
    }
}

/// Whether the broker can take messages, from a lookup of the topic: the
/// number of its partitions, nothing if the broker does not list it, or the
/// lookup's error.
pub open spec fn spec_topic_reachable(lookup: Result<Option<usize>, String>) -> bool {
    match lookup {
        Ok(Some(partitions)) => partitions > 0,
        Ok(None) => false,
        Err(_) => false,
    }
}

/// Whether the broker can take messages: the topic is listed and has at
/// least one partition. A failed lookup means no, not an error.
pub fn topic_reachable(lookup: &Result<Option<usize>, String>) -> (r: bool)
    ensures
        r == spec_topic_reachable(*lookup),
{
    match lookup {
        Ok(Some(partitions)) => *partitions > 0,
        Ok(None) => false,
        Err(_) => false,
    }
}

/// Whether the relational store answered its probe as expected: the probe
/// asks for the number one.
pub fn probe_answered(answer: i32) -> (r: bool)
    ensures
        r == (answer == 1),
{
    answer == 1
}

} // verus!
