//! The coordinator: sink calls to make and what their outcomes add up to.
//!
//! The coordinator never talks to a sink itself. It says which calls one
//! signal or a batch gives rise to, and it turns the outcomes of those calls,
//! once all of them have settled, into one result. A failing sink never hides
//! the outcome of another, and nothing is rolled back.

use crate::failure::{
    batch_failures, conclude, count_failed, count_phrase, failed_count, failure_lines,
    in_declaration_order, lemma_failed_count_bounded, push_write_failure, record_failures,
    reports, signal_failures, write_failures, AggregatedError, Operation, SinkFailure,
};
use crate::health::{
    all_entries_healthy, lemma_status_of_entry, one_entry_per_sink, probe_reachable, reachable,
    HealthEntry, HealthSnapshot,
};
use crate::models::DeviceSignal;
use crate::plan::{batch_calls, calls_to, signal_calls, SinkCall};
use crate::sink::SinkKind;
use crate::text::decimal;
use vstd::prelude::*;

verus! {

/// Bits that every random identifier has in common: the version is 4 and the
/// variant is the standard one.
pub open spec fn random_id_form(id: u128) -> bool {
    id & 0x0000_0000_0000_f000_c000_0000_0000_0000 == 0x0000_0000_0000_4000_8000_0000_0000_0000
}

/// Draws a random identifier with `uuid::Uuid::new_v4` and hands it out as
/// the 128-bit number that `Uuid::as_u128` gives. Which identifier comes is
/// left open; only the version and variant bits that `new_v4` sets in every
/// identifier are promised.
#[verifier::external_body]
fn fresh_id() -> (id: u128)
    ensures
        random_id_form(id),
{
    uuid::Uuid::new_v4().as_u128()
}

/// Whether `r` is the result of one signal's fan-out with the given outcomes:
/// success exactly when all three succeeded, else the failed sinks with
/// their error texts, in declaration order.
pub open spec fn is_signal_result(
    r: Result<(), AggregatedError>,
    mariadb: Result<(), String>,
    influxdb: Result<(), String>,
    kafka: Result<(), String>,
) -> bool {
    &&& r is Ok <==> mariadb is Ok && influxdb is Ok && kafka is Ok
    &&& r is Err ==> r->Err_0.operation == Operation::Signal && r->Err_0.failures@
        == signal_failures(mariadb, influxdb, kafka) && r->Err_0.wf()
}

/// Whether `r` is the result of a batch with the given outcomes: success for
/// an empty batch and where nothing failed, else the failures of the batch.
pub open spec fn is_batch_result(
    r: Result<(), AggregatedError>,
    mariadb: Seq<Result<(), String>>,
    influxdb: Result<(), String>,
    kafka: Result<(), String>,
) -> bool {
    &&& r is Ok <==> mariadb.len() == 0 || (failed_count(mariadb) == 0 && influxdb is Ok
        && kafka is Ok)
    &&& r is Err ==> r->Err_0.operation == Operation::Batch && r->Err_0.failures@
        == batch_failures(mariadb, influxdb, kafka) && r->Err_0.wf()
}

/// The coordinator. It holds no state of its own: every call stands alone.
#[derive(Clone, Copy, Debug)]
pub struct DataService {}

impl DataService {
    /// Gives the signal its identifier before it is handed to any sink, so
    /// that every sink sees the same one. A signal that has one keeps it;
    /// one without gets a random identifier.
    pub fn identify(&self, signal: DeviceSignal) -> (r: DeviceSignal)
        ensures
            r.id is Some,
            r@ == signal@.with_id(r.id->Some_0),
            signal.id is None ==> random_id_form(r.id->Some_0),
    {
        match signal.id {
            Some(_) => signal,
            None => signal.with_id(fresh_id()),
        }
    }

    /// The calls to make for one signal. All of them are started before any
    /// outcome is looked at.
    pub fn signal_plan(&self) -> (calls: Vec<SinkCall>)
        ensures
            calls@ == signal_calls(),
    {
        let mut calls: Vec<SinkCall> = Vec::new();
        calls.push(SinkCall::Write { sink: SinkKind::MariaDb, index: 0 });
        calls.push(SinkCall::Write { sink: SinkKind::InfluxDb, index: 0 });
        calls.push(SinkCall::Write { sink: SinkKind::Kafka, index: 0 });
        assert(calls@ =~= signal_calls());
        calls
    }

    /// The calls to make for a batch of `count` records. An empty batch
    /// touches no sink.
    pub fn batch_plan(&self, count: usize) -> (calls: Vec<SinkCall>)
        ensures
            calls@ == batch_calls(count as nat),
    {
        let mut calls: Vec<SinkCall> = Vec::new();
        if count == 0 {
            assert(calls@ =~= batch_calls(0));
            return calls;
        }
        let mut i: usize = 0;
        while i < count
            invariant
                i <= count,
                calls@.len() == i,
                forall|j: int|
                    0 <= j < i ==> #[trigger] calls@[j] == (SinkCall::Write {
                        sink: SinkKind::MariaDb,
                        index: j as usize,
                    }),
            decreases count - i,
        {
            calls.push(SinkCall::Write { sink: SinkKind::MariaDb, index: i });
            i += 1;
        }
        calls.push(SinkCall::WriteBatch { sink: SinkKind::InfluxDb, count });
        calls.push(SinkCall::WriteBatch { sink: SinkKind::Kafka, count });
        assert(calls@ =~= batch_calls(count as nat));
        calls
    }

    /// Outcome of one signal's fan-out, from the three sinks' outcomes.
    ///
    /// Succeeds exactly when all three did. Otherwise the error lists every
    /// failed sink with its error text, in declaration order.
    pub fn process_signal(
        &self,
        mariadb: Result<(), String>,
        influxdb: Result<(), String>,
        kafka: Result<(), String>,
    ) -> (r: Result<(), AggregatedError>)
        ensures
            is_signal_result(r, mariadb, influxdb, kafka),
    {
        let mut failures: Vec<SinkFailure> = Vec::new();
        push_write_failure(&mut failures, SinkKind::MariaDb, mariadb);
        push_write_failure(&mut failures, SinkKind::InfluxDb, influxdb);
        push_write_failure(&mut failures, SinkKind::Kafka, kafka);
        assert(failures@ =~= signal_failures(mariadb, influxdb, kafka));
        conclude(Operation::Signal, failures)
    }

    /// Outcome of a batch, from the outcome of each record's relational
    /// write and of the two batch writes.
    ///
    /// An empty batch succeeds. Otherwise the batch succeeds exactly when no
    /// record's write failed and both batch writes succeeded; the error
    /// gives the number of failed records, not which, and then the error
    /// text of each failed batch write.
    pub fn process_batch_signals(
        &self,
        mariadb: &Vec<Result<(), String>>,
        influxdb: Result<(), String>,
        kafka: Result<(), String>,
    ) -> (r: Result<(), AggregatedError>)
        ensures
            is_batch_result(r, mariadb@, influxdb, kafka),
    {
        if mariadb.len() == 0 {
            return Ok(());
        }
        let failed = count_failed(mariadb);
        let mut failures: Vec<SinkFailure> = Vec::new();
        if failed > 0 {
            failures.push(
                SinkFailure::Records { sink: SinkKind::MariaDb, failed, total: mariadb.len() },
            );
        }
        assert(failures@ =~= record_failures(SinkKind::MariaDb, mariadb@));
        push_write_failure(&mut failures, SinkKind::InfluxDb, influxdb);
        push_write_failure(&mut failures, SinkKind::Kafka, kafka);
        assert(failures@ =~= batch_failures(mariadb@, influxdb, kafka));
        conclude(Operation::Batch, failures)
    }

    /// Outcome of one signal's fan-out, from the outcomes of the planned
    /// calls in the plan's order. There is no result unless there is one
    /// outcome for each call of the plan.
    pub fn settle_signal(&self, outcomes: Vec<Result<(), String>>) -> (r: Option<
        Result<(), AggregatedError>,
    >)
        ensures
            r is Some <==> outcomes@.len() == signal_calls().len(),
            r is Some ==> is_signal_result(r->Some_0, outcomes@[0], outcomes@[1], outcomes@[2]),
    {
        if outcomes.len() != 3 {
            return None;
        }
        let mut rest = outcomes;
        let kafka = rest.pop().unwrap();
        let influxdb = rest.pop().unwrap();
        let mariadb = rest.pop().unwrap();
        Some(self.process_signal(mariadb, influxdb, kafka))
    }

    /// Outcome of a batch, from the outcomes of the planned calls in the
    /// plan's order: first the records' relational writes, then the two
    /// batch writes. No outcome at all is the empty batch, which succeeds.
    /// There is no result where the outcomes are those of no plan.
    pub fn settle_batch(&self, outcomes: Vec<Result<(), String>>) -> (r: Option<
        Result<(), AggregatedError>,
    >)
        ensures
            r is Some <==> outcomes@.len() == 0 || outcomes@.len() >= 3,
            outcomes@.len() == 0 ==> r == Some(Ok::<(), AggregatedError>(())),
            outcomes@.len() >= 3 ==> is_batch_result(
                r->Some_0,
                outcomes@.take(outcomes@.len() - 2),
                outcomes@[outcomes@.len() - 2],
                outcomes@[outcomes@.len() - 1],
            ),
    {
        if outcomes.len() == 0 {
            return Some(Ok(()));
        }
        if outcomes.len() < 3 {
            return None;
        }
        let mut records = outcomes;
        let kafka = records.pop().unwrap();
        let influxdb = records.pop().unwrap();
        assert(records@ =~= outcomes@.take(outcomes@.len() - 2));
        Some(self.process_batch_signals(&records, influxdb, kafka))
    }

    /// Reachability of every sink, from the three probes' outcomes. A probe
    /// that failed counts as unreachable; nothing is reported as an error.
    pub fn check_all(
        &self,
        mariadb: &Result<bool, String>,
        influxdb: &Result<bool, String>,
        kafka: &Result<bool, String>,
    ) -> (snapshot: HealthSnapshot)
        ensures
            snapshot.entries@ == seq![
                (HealthEntry { sink: SinkKind::MariaDb, healthy: reachable(*mariadb) }),
                (HealthEntry { sink: SinkKind::InfluxDb, healthy: reachable(*influxdb) }),
                (HealthEntry { sink: SinkKind::Kafka, healthy: reachable(*kafka) }),
            ],
            snapshot.all_healthy == (reachable(*mariadb) && reachable(*influxdb) && reachable(
                *kafka,
            )),
            snapshot.wf(),
            one_entry_per_sink(snapshot.entries@),
            snapshot.spec_status(SinkKind::MariaDb) == Some(reachable(*mariadb)),
            snapshot.spec_status(SinkKind::InfluxDb) == Some(reachable(*influxdb)),
            snapshot.spec_status(SinkKind::Kafka) == Some(reachable(*kafka)),
    {
        let mut entries: Vec<HealthEntry> = Vec::new();
        entries.push(HealthEntry { sink: SinkKind::MariaDb, healthy: probe_reachable(mariadb) });
        entries.push(HealthEntry { sink: SinkKind::InfluxDb, healthy: probe_reachable(influxdb) });
        entries.push(HealthEntry { sink: SinkKind::Kafka, healthy: probe_reachable(kafka) });
        let snapshot = HealthSnapshot::new(entries);
        proof {
            let e = snapshot.entries@;
            assert(e =~= seq![
                (HealthEntry { sink: SinkKind::MariaDb, healthy: reachable(*mariadb) }),
                (HealthEntry { sink: SinkKind::InfluxDb, healthy: reachable(*influxdb) }),
                (HealthEntry { sink: SinkKind::Kafka, healthy: reachable(*kafka) }),
            ]);
            if reachable(*mariadb) && reachable(*influxdb) && reachable(*kafka) {
                assert(all_entries_healthy(e));
            } else {
                assert(!e[0].healthy || !e[1].healthy || !e[2].healthy);
            }
            assert(one_entry_per_sink(e));
            lemma_status_of_entry(e, 0);
            lemma_status_of_entry(e, 1);
            lemma_status_of_entry(e, 2);
        }
        snapshot
    }

    /// The full health check: the snapshot of the three probes' outcomes,
    /// whatever they are. A sink whose probe failed or answered no shows as
    /// unreachable; the probe's error goes no further, and the check itself
    /// never fails.
    pub fn full_health_check(
        &self,
        mariadb: Result<bool, String>,
        influxdb: Result<bool, String>,
        kafka: Result<bool, String>,
    ) -> (snapshot: HealthSnapshot)
        ensures
            snapshot.entries@ == seq![
                (HealthEntry { sink: SinkKind::MariaDb, healthy: reachable(mariadb) }),
                (HealthEntry { sink: SinkKind::InfluxDb, healthy: reachable(influxdb) }),
                (HealthEntry { sink: SinkKind::Kafka, healthy: reachable(kafka) }),
            ],
            snapshot.all_healthy == (reachable(mariadb) && reachable(influxdb) && reachable(kafka)),
            snapshot.wf(),
            one_entry_per_sink(snapshot.entries@),
            snapshot.spec_status(SinkKind::MariaDb) == Some(reachable(mariadb)),
            snapshot.spec_status(SinkKind::InfluxDb) == Some(reachable(influxdb)),
            snapshot.spec_status(SinkKind::Kafka) == Some(reachable(kafka)),
    {
        self.check_all(&mariadb, &influxdb, &kafka)
    }
}

/// The sink's own outcome among the three of one fan-out.
pub open spec fn outcome_of(
    sink: SinkKind,
    mariadb: Result<(), String>,
    influxdb: Result<(), String>,
    kafka: Result<(), String>,
) -> Result<(), String> {
    match sink {
        SinkKind::MariaDb => mariadb,
        SinkKind::InfluxDb => influxdb,
        SinkKind::Kafka => kafka,
    }
}

/// An empty batch gives rise to no call at all.
pub proof fn lemma_empty_batch_touches_nothing(sink: SinkKind)
    ensures
        batch_calls(0).len() == 0,
        calls_to(batch_calls(0), sink) == 0,
        batch_failures(Seq::empty(), Ok(()), Ok(())).len() == 0,
{
}

/// When exactly one sink fails, the error lists that sink and no other, and
/// its message is the heading followed by that sink's name and error text.
pub proof fn lemma_single_failure_names_its_sink(
    failed: SinkKind,
    detail: String,
    mariadb: Result<(), String>,
    influxdb: Result<(), String>,
    kafka: Result<(), String>,
    error: AggregatedError,
)
    requires
        outcome_of(failed, mariadb, influxdb, kafka) == Err::<(), String>(detail),
        forall|other: SinkKind|
            other != failed ==> #[trigger] outcome_of(other, mariadb, influxdb, kafka) is Ok,
        error.operation == Operation::Signal,
        error.failures@ == signal_failures(mariadb, influxdb, kafka),
    ensures
        error.failures@ == seq![SinkFailure::Write { sink: failed, detail }],
        error.text() == "Processing errors: "@ + failed.spec_label() + " error: "@ + detail@,
{
    assert(failed != SinkKind::MariaDb ==> outcome_of(SinkKind::MariaDb, mariadb, influxdb, kafka) is Ok);
    assert(failed != SinkKind::InfluxDb ==> outcome_of(SinkKind::InfluxDb, mariadb, influxdb, kafka) is Ok);
    assert(failed != SinkKind::Kafka ==> outcome_of(SinkKind::Kafka, mariadb, influxdb, kafka) is Ok);
    let only = seq![SinkFailure::Write { sink: failed, detail }];
    assert(error.failures@ =~= only);
    assert(failure_lines(only) =~= seq![only[0].line()]);
}

/// When some records of a batch fail in the relational store and both batch
/// writes succeed, the error holds one entry, the number of failed records
/// out of all, and its message says no more than that. The batch is one that
/// a vector can hold.
pub proof fn lemma_batch_reports_failed_records(
    mariadb: Seq<Result<(), String>>,
    error: AggregatedError,
)
    requires
        mariadb.len() <= usize::MAX,
        failed_count(mariadb) > 0,
        error.operation == Operation::Batch,
        error.failures@ == batch_failures(mariadb, Ok(()), Ok(())),
    ensures
        failed_count(mariadb) <= mariadb.len(),
        error.failures@ == seq![
            SinkFailure::Records {
                sink: SinkKind::MariaDb,
                failed: failed_count(mariadb) as usize,
                total: mariadb.len() as usize,
            },
        ],
        error.text() == "Batch processing errors: MariaDB errors: "@ + count_phrase(
            failed_count(mariadb),
            mariadb.len(),
        ),
        count_phrase(failed_count(mariadb), mariadb.len()) == decimal(failed_count(mariadb))
            + " of "@ + decimal(mariadb.len()) + " failed"@,
{
    lemma_failed_count_bounded(mariadb);
    let only = seq![
        SinkFailure::Records {
            sink: SinkKind::MariaDb,
            failed: failed_count(mariadb) as usize,
            total: mariadb.len() as usize,
        },
    ];
    assert(error.failures@ =~= only);
    assert(failure_lines(only) =~= seq![only[0].line()]);
    reveal_strlit("Batch processing errors: MariaDB errors: ");
    reveal_strlit("Batch processing errors: ");
    reveal_strlit("MariaDB");
    reveal_strlit(" errors: ");
    assert("Batch processing errors: MariaDB errors: "@ =~= "Batch processing errors: "@
        + "MariaDB"@ + " errors: "@);
    assert(error.text() =~= "Batch processing errors: MariaDB errors: "@ + count_phrase(
        failed_count(mariadb),
        mariadb.len(),
    ));
}

/// The failures of one signal's fan-out come in declaration order, whichever
/// sinks failed.
pub proof fn lemma_signal_failures_ordered(
    mariadb: Result<(), String>,
    influxdb: Result<(), String>,
    kafka: Result<(), String>,
)
    ensures
        in_declaration_order(signal_failures(mariadb, influxdb, kafka)),
        signal_failures(mariadb, influxdb, kafka).len() <= 3,
{
}

/// A sink is named in the failures of one signal's fan-out exactly when its
/// write failed, and then with its own error text: no failure is dropped and
/// none is made up.
pub proof fn lemma_signal_failures_complete(
    sink: SinkKind,
    mariadb: Result<(), String>,
    influxdb: Result<(), String>,
    kafka: Result<(), String>,
)
    ensures
        reports(signal_failures(mariadb, influxdb, kafka), sink) <==> outcome_of(
            sink,
            mariadb,
            influxdb,
            kafka,
        ) is Err,
        forall|detail: String|
            outcome_of(sink, mariadb, influxdb, kafka) == Err::<(), String>(detail)
                ==> signal_failures(mariadb, influxdb, kafka).contains(
                SinkFailure::Write { sink, detail },
            ),
{
    let all = signal_failures(mariadb, influxdb, kafka);
    let m = write_failures(SinkKind::MariaDb, mariadb);
    let i = write_failures(SinkKind::InfluxDb, influxdb);
    let k = write_failures(SinkKind::Kafka, kafka);
    assert(all =~= m + i + k);
    if outcome_of(sink, mariadb, influxdb, kafka) is Err {
        let at: int = match sink {
            SinkKind::MariaDb => 0,
            SinkKind::InfluxDb => m.len() as int,
            SinkKind::Kafka => (m.len() + i.len()) as int,
        };
        assert(all[at].spec_sink() == sink);
        assert(all[at] == (SinkFailure::Write {
            sink,
            detail: outcome_of(sink, mariadb, influxdb, kafka)->Err_0,
        }));
    }
}

/// The failures of a batch come in declaration order.
pub proof fn lemma_batch_failures_ordered(
    mariadb: Seq<Result<(), String>>,
    influxdb: Result<(), String>,
    kafka: Result<(), String>,
)
    ensures
        in_declaration_order(batch_failures(mariadb, influxdb, kafka)),
{
}

} // verus!
