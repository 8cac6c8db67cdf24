//! Failures of sinks and their aggregation into one error with one message.

use crate::sink::SinkKind;
use crate::text::{decimal, decimal_string, join, joined, views};
use vstd::prelude::*;

verus! {

/// How a number of failed records out of all is worded: `failed`, then
/// " of ", then `total`, both in decimal, then " failed".
pub open spec fn count_phrase(failed: nat, total: nat) -> Seq<char> {
    decimal(failed) + " of "@ + decimal(total) + " failed"@
}

/// What one sink contributes to a failed operation.
#[derive(Clone, Debug, PartialEq, Eq)]
pub enum SinkFailure {
    /// A call failed with the sink's own error text.
    Write { sink: SinkKind, detail: String },
    /// Of `total` single-record writes, `failed` did not succeed.
    Records { sink: SinkKind, failed: usize, total: usize },
}

impl SinkFailure {
    /// The sink that failed.
    pub open spec fn spec_sink(self) -> SinkKind {
        match self {
            SinkFailure::Write { sink, .. } => sink,
            SinkFailure::Records { sink, .. } => sink,
        }
    }

    /// The sink that failed.
    pub fn sink(&self) -> (r: SinkKind)
        ensures
            r == self.spec_sink(),
    {
        match self {
            SinkFailure::Write { sink, .. } => *sink,
            SinkFailure::Records { sink, .. } => *sink,
        }
    }

    /// The failure's part of an error message.
    pub open spec fn line(self) -> Seq<char> {
        match self {
            SinkFailure::Write { sink, detail } => sink.spec_label() + " error: "@ + detail@,
            SinkFailure::Records { sink, failed, total } => sink.spec_label() + " errors: "@
                + count_phrase(failed as nat, total as nat),
        }
    }

    /// Renders the failure's part of an error message.
    pub fn describe(&self) -> (s: String)
        ensures
            s@ == self.line(),
    {
        match self {
            SinkFailure::Write { sink, detail } => {
                let mut s = String::from_str(sink.label());
                s.append(" error: ");
                s.append(detail.as_str());
                s
            },
            SinkFailure::Records { sink, failed, total } => {
                let mut s = String::from_str(sink.label());
                s.append(" errors: ");
                s.append(decimal_string(*failed as u64).as_str());
                s.append(" of ");
                s.append(decimal_string(*total as u64).as_str());
                s.append(" failed");
                assert(s@ =~= self.line());
                s
            },
        }
    }
}

/// The operation that an aggregated error belongs to.
#[derive(Clone, Copy, Debug, PartialEq, Eq, Structural)]
pub enum Operation {
    Signal,
    Batch,
}

impl Operation {
    /// How an error message of the operation begins.
    pub open spec fn spec_heading(self) -> Seq<char> {
        match self {
            Operation::Signal => "Processing errors: "@,
            Operation::Batch => "Batch processing errors: "@,
        }
    }

    /// How an error message of the operation begins.
    pub fn heading(&self) -> (r: &'static str)
        ensures
            r@ == self.spec_heading(),
    {
        match self {
            Operation::Signal => "Processing errors: ",
            Operation::Batch => "Batch processing errors: ",
        }
    }
}

/// The lines of a list of failures, in order.
pub open spec fn failure_lines(failures: Seq<SinkFailure>) -> Seq<Seq<char>> {
    Seq::new(failures.len(), |i: int| failures[i].line())
}

/// The failures of one operation, in the sinks' declaration order.
#[derive(Clone, Debug, PartialEq, Eq)]
pub struct AggregatedError {
    pub operation: Operation,
    pub failures: Vec<SinkFailure>,
}

impl AggregatedError {
    /// An aggregated error reports at least one failure.
    pub open spec fn wf(self) -> bool {
        self.failures@.len() > 0
    }

    /// The message: the operation's heading, then the failures' lines
    /// separated by a comma and a blank.
    pub open spec fn text(self) -> Seq<char> {
        self.operation.spec_heading() + joined(failure_lines(self.failures@), ", "@)
    }

    /// Renders the message.
    pub fn message(&self) -> (s: String)
        ensures
            s@ == self.text(),
    {
        let mut lines: Vec<String> = Vec::new();
        let mut i: usize = 0;
        while i < self.failures.len()
            invariant
                i <= self.failures.len(),
                lines@.len() == i,
                forall|j: int| 0 <= j < i ==> (#[trigger] lines@[j])@ == self.failures@[j].line(),
            decreases self.failures.len() - i,
        {
            lines.push(self.failures[i].describe());
            i += 1;
        }
        assert(views(lines@) =~= failure_lines(self.failures@));
        let mut s = String::from_str(self.operation.heading());
        s.append(join(&lines, ", ").as_str());
        s
    }
}

/// What a write's outcome contributes: nothing on success, the sink's error
/// otherwise.
pub open spec fn write_failures(sink: SinkKind, outcome: Result<(), String>) -> Seq<SinkFailure> {
    match outcome {
        Ok(_) => Seq::empty(),
        Err(detail) => seq![SinkFailure::Write { sink, detail }],
    }
}

/// The failures of one signal's fan-out, in declaration order.
pub open spec fn signal_failures(
    mariadb: Result<(), String>,
    influxdb: Result<(), String>,
    kafka: Result<(), String>,
) -> Seq<SinkFailure> {
    write_failures(SinkKind::MariaDb, mariadb) + write_failures(SinkKind::InfluxDb, influxdb)
        + write_failures(SinkKind::Kafka, kafka)
}

/// How many of the outcomes are failures.
pub open spec fn failed_count(outcomes: Seq<Result<(), String>>) -> nat
    decreases outcomes.len(),
{
    if outcomes.len() == 0 {
        0
    } else {
        failed_count(outcomes.drop_last()) + if outcomes.last() is Err {
            1nat
        } else {
            0nat
        }
    }
}

/// What the single-record writes of a batch contribute: one entry with the
/// number that failed, or nothing if none did.
pub open spec fn record_failures(sink: SinkKind, outcomes: Seq<Result<(), String>>) -> Seq<
    SinkFailure,
> {
    if failed_count(outcomes) > 0 {
        seq![
            SinkFailure::Records {
                sink,
                failed: failed_count(outcomes) as usize,
                total: outcomes.len() as usize,
            },
        ]
    } else {
        Seq::empty()
    }
}

/// The failures of a batch, in declaration order. An empty batch has none,
/// whatever else is handed in.
pub open spec fn batch_failures(
    mariadb: Seq<Result<(), String>>,
    influxdb: Result<(), String>,
    kafka: Result<(), String>,
) -> Seq<SinkFailure> {
    if mariadb.len() == 0 {
        Seq::empty()
    } else {
        record_failures(SinkKind::MariaDb, mariadb) + write_failures(SinkKind::InfluxDb, influxdb)
            + write_failures(SinkKind::Kafka, kafka)
    }
}

/// Never more failures than outcomes.
pub proof fn lemma_failed_count_bounded(outcomes: Seq<Result<(), String>>)
    ensures
        failed_count(outcomes) <= outcomes.len(),
    decreases outcomes.len(),
{
    if outcomes.len() > 0 {
        lemma_failed_count_bounded(outcomes.drop_last());
    }
}

/// Counts the failures among the outcomes.
pub fn count_failed(outcomes: &Vec<Result<(), String>>) -> (failed: usize)
    ensures
        failed == failed_count(outcomes@),
{
    let mut failed: usize = 0;
    let mut i: usize = 0;
    while i < outcomes.len()
        invariant
            i <= outcomes.len(),
            failed == failed_count(outcomes@.take(i as int)),
            failed <= i,
        decreases outcomes.len() - i,
    {
        proof {
            assert(outcomes@.take(i + 1).drop_last() =~= outcomes@.take(i as int));
        }
        if outcomes[i].is_err() {
            failed += 1;
        }
        i += 1;
    }
    proof {
        assert(outcomes@.take(outcomes.len() as int) =~= outcomes@);
    }
    failed
}

/// Appends what a write's outcome contributes.
pub(crate) fn push_write_failure(
    failures: &mut Vec<SinkFailure>,
    sink: SinkKind,
    outcome: Result<(), String>,
)
    ensures
        final(failures)@ == old(failures)@ + write_failures(sink, outcome),
{
    match outcome {
        Ok(_) => {
            assert(failures@ =~= old(failures)@ + write_failures(sink, outcome));
        },
        Err(detail) => {
            failures.push(SinkFailure::Write { sink, detail });
            assert(failures@ =~= old(failures)@ + write_failures(sink, outcome));
        },
    }
}

/// The result of an operation with the given failures: success if there are
/// none, else the error that holds them.
pub(crate) fn conclude(operation: Operation, failures: Vec<SinkFailure>) -> (r: Result<
    (),
    AggregatedError,
>)
    ensures
        r is Ok <==> failures@.len() == 0,
        r is Err ==> r->Err_0.operation == operation && r->Err_0.failures == failures,
{
    if failures.len() == 0 {
        Ok(())
    } else {
        Err(AggregatedError { operation, failures })
    }
}

/// Whether the failures name their sinks in declaration order, each sink at
/// most once.
pub open spec fn in_declaration_order(failures: Seq<SinkFailure>) -> bool {
    forall|i: int, j: int|
        0 <= i < j < failures.len() ==> (#[trigger] failures[i]).spec_sink().rank() < (
        #[trigger] failures[j]).spec_sink().rank()
}

/// Whether some failure in the list belongs to `sink`.
pub open spec fn reports(failures: Seq<SinkFailure>, sink: SinkKind) -> bool {
    exists|i: int| 0 <= i < failures.len() && (#[trigger] failures[i]).spec_sink() == sink
}

} // verus!
