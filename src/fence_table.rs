//! The completion tracker: per ring slot, the signal of the latest
//! submission; and the log of waits and submissions over which race freedom
//! is stated and proved.

use vstd::prelude::*;

verus! {

/// One step of host-side synchronisation, as the engine issues it: a host wait
/// on a completion signal, or a submission of a slot's work that will raise a
/// new signal when it completes.
#[derive(Clone, Copy, Debug, PartialEq, Eq, Structural)]
pub enum Op {
    Wait(u64),
    Submit { slot: u32, signal: u64 },
}

/// Some wait on the signal of the submission at `i` stands strictly between
/// positions `i` and `j` of the log.
pub open spec fn waited_between(log: Seq<Op>, i: int, j: int) -> bool {
    exists|k: int| i < k < j && log[k] == Op::Wait(log[i]->signal)
}

/// Two submissions to the same slot, `a` at `i` before `b` at `j`: the host has
/// waited on `a`'s signal before issuing `b`.
pub open spec fn race_free(log: Seq<Op>) -> bool {
    forall|i: int, j: int|
        #![trigger log[i], log[j]]
        0 <= i < j < log.len() && log[i] is Submit && log[j] is Submit && log[i]->slot
            == log[j]->slot ==> waited_between(log, i, j)
}

/// The submission at `i` has been waited on since.
pub open spec fn settled(log: Seq<Op>, i: int) -> bool {
    waited_between(log, i, log.len() as int)
}

/// Every submission in the log has been waited on.
pub open spec fn all_settled(log: Seq<Op>) -> bool {
    forall|i: int| 0 <= i < log.len() && #[trigger] log[i] is Submit ==> settled(log, i)
}

/// The table holds, for each submission not yet waited on, that submission's
/// signal under its slot.
pub open spec fn tracks(table: Seq<Option<u64>>, log: Seq<Op>) -> bool {
    forall|i: int|
        0 <= i < log.len() && #[trigger] log[i] is Submit && !settled(log, i) ==> {
            &&& log[i]->slot < table.len()
            &&& table[log[i]->slot as int] == Some(log[i]->signal)
        }
}

/// The signals held in a table, in slot order.
pub open spec fn pending_of(table: Seq<Option<u64>>) -> Seq<u64>
    decreases table.len(),
{
    if table.len() == 0 {
        Seq::empty()
    } else {
        let rest = pending_of(table.drop_last());
        match table.last() {
            Some(s) => rest.push(s),
            None => rest,
        }
    }
}

/// The signal a frame is chained after: the one held under the previous
/// frame's slot, or nothing when that slot holds none or lies outside the
/// table.
pub open spec fn chained(table: Seq<Option<u64>>, previous_slot: u32) -> Option<u64> {
    if previous_slot < table.len() {
        table[previous_slot as int]
    } else {
        None
    }
}

/// The wait, if any, issued before a submission.
pub open spec fn wait_ops(wait: Option<u64>) -> Seq<Op> {
    match wait {
        Some(s) => seq![Op::Wait(s)],
        None => Seq::empty(),
    }
}

/// A wait for each signal, in order.
pub open spec fn waits_of(signals: Seq<u64>) -> Seq<Op> {
    signals.map_values(|s: u64| Op::Wait(s))
}

/// The slot of the most recent submission in the log.
pub open spec fn last_submitted(log: Seq<Op>) -> Option<u32>
    decreases log.len(),
{
    if log.len() == 0 {
        None
    } else {
        match log.last() {
            Op::Submit { slot, .. } => Some(slot),
            Op::Wait(_) => last_submitted(log.drop_last()),
        }
    }
}

/// Maps each ring slot to the completion signal of the most recent submission
/// that targeted it, or to nothing before the first one.
pub struct FenceTable {
    pub entries: Vec<Option<u64>>,
}

impl View for FenceTable {
    type V = Seq<Option<u64>>;

    open spec fn view(&self) -> Seq<Option<u64>> {
        self.entries@
    }
}

impl FenceTable {
    /// A table for a ring of `slot_count` slots, with no submission yet.
    pub fn new(slot_count: u32) -> (t: FenceTable)
        ensures
            t@ == Seq::new(slot_count as nat, |i: int| None::<u64>),
    {
        let mut entries: Vec<Option<u64>> = Vec::new();
        let mut i: u32 = 0;
        while i < slot_count
            invariant
                i <= slot_count,
                entries@ == Seq::new(i as nat, |k: int| None::<u64>),
            decreases slot_count - i,
        {
            entries.push(None);
            i = i + 1;
        }
        FenceTable { entries }
    }

    pub fn slot_count(&self) -> (n: usize)
        ensures
            n == self@.len(),
    {
        self.entries.len()
    }

    /// The signal that must be waited on before `slot` is reused, if any.
    pub fn wait_if_pending(&self, slot: u32) -> (r: Option<u64>)
        requires
            slot < self@.len(),
        ensures
            r == self@[slot as int],
    {
        self.entries[slot as usize]
    }

    /// Records the signal of a new submission to `slot`, dropping the one it
    /// supersedes.
    pub fn record_submission(&mut self, slot: u32, signal: u64)
        requires
            slot < old(self)@.len(),
        ensures
            final(self)@ == old(self)@.update(slot as int, Some(signal)),
    {
        self.entries.set(slot as usize, Some(signal));
    }

    /// The signal the current frame's work is chained after: that of the
    /// previous frame's slot, or nothing (an immediately satisfied signal)
    /// when that slot holds none or lies outside the ring.
    pub fn chain(&self, previous_slot: u32) -> (r: Option<u64>)
        ensures
            r == chained(self@, previous_slot),
    {
        if (previous_slot as usize) < self.entries.len() {
            self.entries[previous_slot as usize]
        } else {
            None
        }
    }

    /// Every signal the table holds, in slot order: what a drain waits on.
    pub fn pending(&self) -> (r: Vec<u64>)
        ensures
            r@ == pending_of(self@),
    {
        let mut r: Vec<u64> = Vec::new();
        let mut i: usize = 0;
        while i < self.entries.len()
            invariant
                i <= self@.len(),
                r@ == pending_of(self@.subrange(0, i as int)),
            decreases self@.len() - i,
        {
            assert(self@.subrange(0, i + 1).drop_last() =~= self@.subrange(0, i as int));
            match self.entries[i] {
                Some(s) => r.push(s),
                None => {},
            }
            i = i + 1;
        }
        assert(self@.subrange(0, self@.len() as int) =~= self@);
        r
    }
}

/// Each signal held in the table is among its pending signals.
pub proof fn lemma_pending_contains(table: Seq<Option<u64>>, slot: int)
    requires
        0 <= slot < table.len(),
        table[slot] is Some,
    ensures
        pending_of(table).contains(table[slot]->Some_0),
    decreases table.len(),
{
    let rest = table.drop_last();
    if slot == table.len() - 1 {
        assert(pending_of(table).last() == table[slot]->Some_0);
    } else {
        lemma_pending_contains(rest, slot);
        let k = choose|k: int| 0 <= k < pending_of(rest).len() && pending_of(rest)[k] == table[slot]->Some_0;
        assert(pending_of(table)[k] == table[slot]->Some_0);
    }
}

/// Appending a wait keeps the log race free and tracked, and settles every
/// submission whose signal it waits on.
pub proof fn lemma_append_wait(table: Seq<Option<u64>>, log: Seq<Op>, signal: u64)
    requires
        race_free(log),
        tracks(table, log),
    ensures
        race_free(log.push(Op::Wait(signal))),
        tracks(table, log.push(Op::Wait(signal))),
        forall|i: int|
            0 <= i < log.len() && #[trigger] log[i] is Submit && log[i]->signal == signal
                ==> settled(log.push(Op::Wait(signal)), i),
        forall|i: int| 0 <= i < log.len() && #[trigger] settled(log, i) ==> settled(log.push(Op::Wait(signal)), i),
        last_submitted(log.push(Op::Wait(signal))) == last_submitted(log),
{
    let l2 = log.push(Op::Wait(signal));
    assert(l2.drop_last() =~= log);
    assert forall|i: int, j: int|
        #![trigger l2[i], l2[j]]
        0 <= i < j < l2.len() && l2[i] is Submit && l2[j] is Submit && l2[i]->slot
            == l2[j]->slot implies waited_between(l2, i, j) by {
        assert(log[i] == l2[i] && log[j] == l2[j]);
        let k = choose|k: int| i < k < j && log[k] == Op::Wait(log[i]->signal);
        assert(l2[k] == log[k]);
    }
    assert forall|i: int| 0 <= i < log.len() && #[trigger] settled(log, i) implies settled(l2, i) by {
        let k = choose|k: int| i < k < log.len() && log[k] == Op::Wait(log[i]->signal);
        assert(l2[k] == log[k]);
    }
    assert forall|i: int| 0 <= i < log.len() && #[trigger] log[i] is Submit && log[i]->signal == signal implies settled(l2, i) by {
        assert(l2[log.len() as int] == Op::Wait(signal));
    }
    assert forall|i: int| 0 <= i < l2.len() && #[trigger] l2[i] is Submit && !settled(l2, i) implies {
        &&& l2[i]->slot < table.len()
        &&& table[l2[i]->slot as int] == Some(l2[i]->signal)
    } by {
        assert(l2[i] == log[i]);
        if settled(log, i) {
            let k = choose|k: int| i < k < log.len() && log[k] == Op::Wait(log[i]->signal);
            assert(l2[k] == log[k]);
        }
    }
}

/// Appending a wait for each of `signals` keeps the log race free and
/// tracked, and settles every submission whose signal is among them.
pub proof fn lemma_append_waits(table: Seq<Option<u64>>, log: Seq<Op>, signals: Seq<u64>)
    requires
        race_free(log),
        tracks(table, log),
    ensures
        race_free(log + waits_of(signals)),
        tracks(table, log + waits_of(signals)),
        forall|i: int|
            0 <= i < log.len() && #[trigger] log[i] is Submit && signals.contains(log[i]->signal)
                ==> settled(log + waits_of(signals), i),
        forall|i: int| 0 <= i < log.len() && #[trigger] settled(log, i) ==> settled(log + waits_of(signals), i),
        last_submitted(log + waits_of(signals)) == last_submitted(log),
    decreases signals.len(),
{
    if signals.len() == 0 {
        assert(log + waits_of(signals) =~= log);
    } else {
        let init = signals.drop_last();
        let x = signals.last();
        lemma_append_waits(table, log, init);
        let l1 = log + waits_of(init);
        assert(log + waits_of(signals) =~= l1.push(Op::Wait(x)));
        lemma_append_wait(table, l1, x);
        assert forall|i: int|
            0 <= i < log.len() && #[trigger] log[i] is Submit && signals.contains(log[i]->signal)
                implies settled(log + waits_of(signals), i) by {
            assert(l1[i] == log[i]);
            if log[i]->signal != x {
                let k = choose|k: int| 0 <= k < signals.len() && signals[k] == log[i]->signal;
                assert(init[k] == signals[k]);
            }
        }
    }
}

/// Waiting on every signal a tracking table holds settles every submission.
pub proof fn lemma_drain(table: Seq<Option<u64>>, log: Seq<Op>)
    requires
        race_free(log),
        tracks(table, log),
    ensures
        race_free(log + waits_of(pending_of(table))),
        all_settled(log + waits_of(pending_of(table))),
        last_submitted(log + waits_of(pending_of(table))) == last_submitted(log),
{
    let signals = pending_of(table);
    let l2 = log + waits_of(signals);
    lemma_append_waits(table, log, signals);
    assert forall|i: int| 0 <= i < l2.len() && #[trigger] l2[i] is Submit implies settled(l2, i) by {
        if i >= log.len() {
            assert(l2[i] == waits_of(signals)[i - log.len()]);
        } else {
            assert(l2[i] == log[i]);
            if !settled(log, i) {
                lemma_pending_contains(table, log[i]->slot as int);
            }
        }
    }
}

/// Appending a submission to a slot whose earlier submissions have all been
/// waited on keeps the log race free, and the table updated with its signal
/// tracks the longer log.
pub proof fn lemma_append_submit(table: Seq<Option<u64>>, log: Seq<Op>, slot: u32, signal: u64)
    requires
        race_free(log),
        tracks(table, log),
        slot < table.len(),
        forall|i: int|
            0 <= i < log.len() && #[trigger] log[i] is Submit && log[i]->slot == slot ==> settled(log, i),
    ensures
        race_free(log.push(Op::Submit { slot, signal })),
        tracks(table.update(slot as int, Some(signal)), log.push(Op::Submit { slot, signal })),
        last_submitted(log.push(Op::Submit { slot, signal })) == Some(slot),
{
    let l2 = log.push(Op::Submit { slot, signal });
    let t2 = table.update(slot as int, Some(signal));
    assert forall|i: int, j: int|
        #![trigger l2[i], l2[j]]
        0 <= i < j < l2.len() && l2[i] is Submit && l2[j] is Submit && l2[i]->slot
            == l2[j]->slot implies waited_between(l2, i, j) by {
        assert(l2[i] == log[i]);
        if j < log.len() {
            assert(l2[j] == log[j]);
            assert(log[i] is Submit && log[j] is Submit);
            let k = choose|k: int| i < k < j && log[k] == Op::Wait(log[i]->signal);
            assert(l2[k] == log[k]);
        } else {
            assert(settled(log, i));
            let k = choose|k: int| i < k < log.len() && log[k] == Op::Wait(log[i]->signal);
            assert(l2[k] == log[k]);
        }
    }
    assert forall|i: int| 0 <= i < l2.len() && #[trigger] l2[i] is Submit && !settled(l2, i) implies {
        &&& l2[i]->slot < t2.len()
        &&& t2[l2[i]->slot as int] == Some(l2[i]->signal)
    } by {
        if i < log.len() {
            assert(l2[i] == log[i]);
            if settled(log, i) {
                let k = choose|k: int| i < k < log.len() && log[k] == Op::Wait(log[i]->signal);
                assert(l2[k] == log[k]);
            }
        }
    }
}

/// Once every submission has been waited on, any table tracks the log.
pub proof fn lemma_settled_tracks(table: Seq<Option<u64>>, log: Seq<Op>)
    requires
        all_settled(log),
    ensures
        tracks(table, log),
{
}

} // verus!
