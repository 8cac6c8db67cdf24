//! Reachability of the sinks at one moment.

use crate::sink::SinkKind;
use crate::text::views;
use vstd::prelude::*;

verus! {

/// Reachability as a health snapshot reports it: a probe that failed counts
/// as unreachable.
pub open spec fn reachable(probe: Result<bool, String>) -> bool {
    match probe {
        Ok(healthy) => healthy,
        Err(_) => false,
    }
}

/// One sink's entry in a health snapshot.
#[derive(Clone, Copy, Debug, PartialEq, Eq, Structural)]
pub struct HealthEntry {
    pub sink: SinkKind,
    pub healthy: bool,
}

/// Reachability of every sink at one moment: a mapping from sink to
/// reachability, held as entries in declaration order, and whether all are
/// reachable. The coordinator's snapshots hold one entry per sink
/// (`one_entry_per_sink`); `new` takes any entries as they are.
#[derive(Clone, Debug, PartialEq, Eq)]
pub struct HealthSnapshot {
    pub entries: Vec<HealthEntry>,
    pub all_healthy: bool,
}

/// Whether every entry is healthy.
pub open spec fn all_entries_healthy(entries: Seq<HealthEntry>) -> bool {
    forall|i: int| 0 <= i < entries.len() ==> (#[trigger] entries[i]).healthy
}

/// The health of the first entry for `sink`, if there is one.
pub open spec fn first_status(entries: Seq<HealthEntry>, sink: SinkKind) -> Option<bool>
    decreases entries.len(),
{
    if entries.len() == 0 {
        None
    } else if entries[0].sink == sink {
        Some(entries[0].healthy)
    } else {
        first_status(entries.skip(1), sink)
    }
}

/// Whether no sink has two entries, so that the entries are a mapping from
/// sink to reachability.
pub open spec fn one_entry_per_sink(entries: Seq<HealthEntry>) -> bool {
    forall|i: int, j: int|
        0 <= i < j < entries.len() ==> (#[trigger] entries[i]).sink != (#[trigger] entries[j]).sink
}

/// What is said of a sink that is not reachable: its name and no more.
pub open spec fn unhealthy_line(sink: SinkKind) -> Seq<char> {
    sink.spec_label() + " connection unhealthy"@
}

/// One line for each entry that is not healthy, in the entries' order.
pub open spec fn unhealthy_lines_of(entries: Seq<HealthEntry>) -> Seq<Seq<char>>
    decreases entries.len(),
{
    if entries.len() == 0 {
        Seq::empty()
    } else if entries.last().healthy {
        unhealthy_lines_of(entries.drop_last())
    } else {
        unhealthy_lines_of(entries.drop_last()).push(unhealthy_line(entries.last().sink))
    }
}

impl HealthSnapshot {
    /// The flag is the conjunction of the entries.
    pub open spec fn wf(self) -> bool {
        self.all_healthy == all_entries_healthy(self.entries@)
    }

    /// What the snapshot says of `sink`: its first entry for it, if any.
    pub open spec fn spec_status(self, sink: SinkKind) -> Option<bool> {
        first_status(self.entries@, sink)
    }

    /// What the snapshot says of `sink`: its first entry for it, if any.
    pub fn status(&self, sink: SinkKind) -> (r: Option<bool>)
        ensures
            r == self.spec_status(sink),
    {
        let mut i: usize = 0;
        proof {
            assert(self.entries@.skip(0) =~= self.entries@);
        }
        while i < self.entries.len()
            invariant
                i <= self.entries.len(),
                first_status(self.entries@, sink) == first_status(self.entries@.skip(i as int), sink),
            decreases self.entries.len() - i,
        {
            proof {
                assert(self.entries@.skip(i as int).skip(1) =~= self.entries@.skip(i + 1));
            }
            if self.entries[i].sink == sink {
                return Some(self.entries[i].healthy);
            }
            i += 1;
        }
        None
    }

    /// The snapshot as pairs of a sink's key and its reachability, in order.
    pub open spec fn spec_report(self) -> Seq<(Seq<char>, bool)> {
        Seq::new(
            self.entries@.len(),
            |i: int| (self.entries@[i].sink.spec_name(), self.entries@[i].healthy),
        )
    }

    /// The snapshot as pairs of a sink's key and its reachability, in order.
    pub fn report(&self) -> (pairs: Vec<(String, bool)>)
        ensures
            pairs@.len() == self.entries@.len(),
            forall|i: int|
                0 <= i < pairs@.len() ==> (#[trigger] pairs@[i]).0@ == self.spec_report()[i].0
                    && pairs@[i].1 == self.spec_report()[i].1,
    {
        let mut pairs: Vec<(String, bool)> = Vec::new();
        let mut i: usize = 0;
        while i < self.entries.len()
            invariant
                i <= self.entries.len(),
                pairs@.len() == i,
                forall|j: int|
                    0 <= j < i ==> (#[trigger] pairs@[j]).0@ == self.entries@[j].sink.spec_name()
                        && pairs@[j].1 == self.entries@[j].healthy,
            decreases self.entries.len() - i,
        {
            let entry = &self.entries[i];
            pairs.push((String::from_str(entry.sink.name()), entry.healthy));
            i += 1;
        }
        pairs
    }

    /// One line for each sink that is not reachable, in the entries' order.
    /// A line names the sink and carries nothing of a probe's error.
    pub fn unhealthy_lines(&self) -> (lines: Vec<String>)
        ensures
            views(lines@) == unhealthy_lines_of(self.entries@),
    {
        let mut lines: Vec<String> = Vec::new();
        let mut i: usize = 0;
        while i < self.entries.len()
            invariant
                i <= self.entries.len(),
                views(lines@) == unhealthy_lines_of(self.entries@.take(i as int)),
            decreases self.entries.len() - i,
        {
            proof {
                assert(self.entries@.take(i + 1).drop_last() =~= self.entries@.take(i as int));
            }
            let entry = &self.entries[i];
            if !entry.healthy {
                let ghost before = views(lines@);
                let mut line = String::from_str(entry.sink.label());
                line.append(" connection unhealthy");
                lines.push(line);
                assert(views(lines@) =~= before.push(unhealthy_line(entry.sink)));
            }
            i += 1;
        }
        proof {
            assert(self.entries@.take(self.entries.len() as int) =~= self.entries@);
        }
        lines
    }

    /// Builds the snapshot of the given entries.
    pub fn new(entries: Vec<HealthEntry>) -> (snapshot: HealthSnapshot)
        ensures
            snapshot.entries == entries,
            snapshot.wf(),
    {
        let mut all_healthy = true;
        let mut i: usize = 0;
        while i < entries.len()
            invariant
                i <= entries.len(),
                all_healthy == all_entries_healthy(entries@.take(i as int)),
            decreases entries.len() - i,
        {
            proof {
                let before = entries@.take(i as int);
                let after = entries@.take(i + 1);
                assert(forall|j: int| 0 <= j < before.len() ==> before[j] == after[j]);
                if all_entries_healthy(after) {
                    assert forall|j: int| 0 <= j < before.len() implies (#[trigger] before[j]).healthy by {
                        assert(after[j].healthy);
                    }
                }
                if all_entries_healthy(before) && entries@[i as int].healthy {
                    assert forall|j: int| 0 <= j < after.len() implies (#[trigger] after[j]).healthy by {
                        if j < i {
                            assert(before[j].healthy);
                        }
                    }
                }
                if !entries@[i as int].healthy {
                    assert(!after[i as int].healthy);
                }
            }
            if !entries[i].healthy {
                all_healthy = false;
            }
            i += 1;
        }
        proof {
            assert(entries@.take(entries.len() as int) =~= entries@);
        }
        HealthSnapshot { entries, all_healthy }
    }
}

/// Reads a probe's outcome as reachability.
pub fn probe_reachable(probe: &Result<bool, String>) -> (healthy: bool)
    ensures
        healthy == reachable(*probe),
{
    match probe {
        Ok(healthy) => *healthy,
        Err(_) => false,
    }
}

/// A snapshot is healthy as a whole exactly when every entry is: one
/// unhealthy entry is enough to clear the flag.
pub proof fn lemma_all_healthy_is_conjunction(snapshot: HealthSnapshot)
    requires
        snapshot.wf(),
    ensures
        snapshot.all_healthy <==> (forall|i: int|
            0 <= i < snapshot.entries@.len() ==> (#[trigger] snapshot.entries@[i]).healthy),
        forall|i: int|
            0 <= i < snapshot.entries@.len() && !(#[trigger] snapshot.entries@[i]).healthy
                ==> !snapshot.all_healthy,
{
}

/// A probe that failed makes its sink's entry, and with it the whole
/// snapshot, unhealthy.
pub proof fn lemma_failed_probe_is_unreachable(detail: String)
    ensures
        !reachable(Err(detail)),
{
}

/// There is a line for each unhealthy entry and for no other: no line at all
/// exactly when every entry is healthy.
pub proof fn lemma_lines_count_unhealthy(entries: Seq<HealthEntry>)
    ensures
        unhealthy_lines_of(entries).len() <= entries.len(),
        unhealthy_lines_of(entries).len() == 0 <==> all_entries_healthy(entries),
    decreases entries.len(),
{
    if entries.len() > 0 {
        let init = entries.drop_last();
        lemma_lines_count_unhealthy(init);
        if all_entries_healthy(entries) {
            assert forall|i: int| 0 <= i < init.len() implies (#[trigger] init[i]).healthy by {
                assert(entries[i].healthy);
            }
            assert(entries[entries.len() - 1].healthy);
        }
        if all_entries_healthy(init) && entries.last().healthy {
            assert forall|i: int| 0 <= i < entries.len() implies (#[trigger] entries[i]).healthy by {
                if i < init.len() {
                    assert(init[i].healthy);
                }
            }
        }
    }
}

/// Where no sink has two entries, the snapshot answers for a sink with the
/// entry that names it.
pub proof fn lemma_status_of_entry(entries: Seq<HealthEntry>, at: int)
    requires
        one_entry_per_sink(entries),
        0 <= at < entries.len(),
    ensures
        first_status(entries, entries[at].sink) == Some(entries[at].healthy),
    decreases at,
{
    if at > 0 {
        let rest = entries.skip(1);
        assert(entries[0].sink != entries[at].sink);
        assert forall|i: int, j: int| 0 <= i < j < rest.len() implies (#[trigger] rest[i]).sink != (
        #[trigger] rest[j]).sink by {
            assert(entries[i + 1].sink != entries[j + 1].sink);
        }
        lemma_status_of_entry(rest, at - 1);
    }
}

} // verus!
