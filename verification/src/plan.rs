//! The sink calls that one signal or a batch gives rise to.

use crate::sink::SinkKind;
use vstd::prelude::*;

verus! {

/// One call that the coordinator asks for.
#[derive(Clone, Copy, Debug, PartialEq, Eq, Structural)]
pub enum SinkCall {
    /// Write the record at `index` on its own.
    Write { sink: SinkKind, index: usize },
    /// Write all `count` records through the sink's batch call.
    WriteBatch { sink: SinkKind, count: usize },
}

impl SinkCall {
    /// The sink that is called.
    pub open spec fn spec_sink(self) -> SinkKind {
        match self {
            SinkCall::Write { sink, .. } => sink,
            SinkCall::WriteBatch { sink, .. } => sink,
        }
    }
}

/// The calls for one signal: one write to each sink, in declaration order,
/// all of the same record.
pub open spec fn signal_calls() -> Seq<SinkCall> {
    seq![
        SinkCall::Write { sink: SinkKind::MariaDb, index: 0 },
        SinkCall::Write { sink: SinkKind::InfluxDb, index: 0 },
        SinkCall::Write { sink: SinkKind::Kafka, index: 0 },
    ]
}

/// One relational write for each of `count` records, in input order.
pub open spec fn record_writes(count: nat) -> Seq<SinkCall> {
    Seq::new(count, |i: int| SinkCall::Write { sink: SinkKind::MariaDb, index: i as usize })
}

/// The calls for a batch of `count` records: none for an empty batch; else
/// one relational write per record, in input order, then one batch call to
/// the time-series store and one to the broker.
pub open spec fn batch_calls(count: nat) -> Seq<SinkCall> {
    if count == 0 {
        Seq::empty()
    } else {
        record_writes(count) + seq![
            SinkCall::WriteBatch { sink: SinkKind::InfluxDb, count: count as usize },
            SinkCall::WriteBatch { sink: SinkKind::Kafka, count: count as usize },
        ]
    }
}

/// How many of the calls go to `sink`.
pub open spec fn calls_to(calls: Seq<SinkCall>, sink: SinkKind) -> nat
    decreases calls.len(),
{
    if calls.len() == 0 {
        0
    } else {
        calls_to(calls.drop_last(), sink) + if calls.last().spec_sink() == sink {
            1nat
        } else {
            0nat
        }
    }
}

/// One signal gives rise to exactly one call per sink, each a write of the
/// one record that was identified before the fan-out.
pub proof fn lemma_signal_plan_one_write_per_sink(sink: SinkKind)
    ensures
        calls_to(signal_calls(), sink) == 1,
        forall|i: int|
            0 <= i < signal_calls().len() ==> (#[trigger] signal_calls()[i] matches SinkCall::Write {
                index,
                ..
            } && index == 0),
{
    let calls = signal_calls();
    let two = calls.drop_last();
    let one = two.drop_last();
    assert(one.drop_last() =~= Seq::<SinkCall>::empty());
    assert(calls_to(one.drop_last(), sink) == 0);
    assert(one.last() == calls[0]);
    assert(two.last() == calls[1]);
    assert(calls.last() == calls[2]);
    assert(calls_to(one, sink) == if sink == SinkKind::MariaDb {
        1nat
    } else {
        0nat
    });
    assert(calls_to(two, sink) == calls_to(one, sink) + if sink == SinkKind::InfluxDb {
        1nat
    } else {
        0nat
    });
}

proof fn lemma_record_writes_go_to_one_sink(count: nat, sink: SinkKind)
    ensures
        calls_to(record_writes(count), sink) == if sink == SinkKind::MariaDb {
            count
        } else {
            0
        },
    decreases count,
{
    if count > 0 {
        assert(record_writes(count).drop_last() =~= record_writes((count - 1) as nat));
        lemma_record_writes_go_to_one_sink((count - 1) as nat, sink);
    }
}

/// A batch that is not empty gives rise to one relational write per record,
/// in input order, and to exactly one call to each of the other two sinks.
pub proof fn lemma_batch_plan_shape(count: nat)
    requires
        count > 0,
    ensures
        batch_calls(count).len() == count + 2,
        calls_to(batch_calls(count), SinkKind::MariaDb) == count,
        calls_to(batch_calls(count), SinkKind::InfluxDb) == 1,
        calls_to(batch_calls(count), SinkKind::Kafka) == 1,
        forall|i: int|
            0 <= i < count ==> #[trigger] batch_calls(count)[i] == (SinkCall::Write {
                sink: SinkKind::MariaDb,
                index: i as usize,
            }),
{
    let calls = batch_calls(count);
    let writes = record_writes(count);
    let influx = SinkCall::WriteBatch { sink: SinkKind::InfluxDb, count: count as usize };
    assert(calls.drop_last() =~= writes.push(influx));
    assert(calls.drop_last().drop_last() =~= writes);
    assert(calls.drop_last().last() == influx);
    lemma_record_writes_go_to_one_sink(count, SinkKind::MariaDb);
    lemma_record_writes_go_to_one_sink(count, SinkKind::InfluxDb);
    lemma_record_writes_go_to_one_sink(count, SinkKind::Kafka);
    assert(calls_to(calls.drop_last(), SinkKind::MariaDb) == count);
    assert(calls_to(calls.drop_last(), SinkKind::InfluxDb) == 1);
    assert(calls_to(calls.drop_last(), SinkKind::Kafka) == 0);
}

} // verus!
