//! Audit Log: a capacity-bounded, insertion-ordered trail of validation
//! decisions. Every entry carries a process-wide, strictly increasing
//! sequence number, issued from 1 on and never reused; once the trail is
//! full, an append evicts the oldest entry. A caller appends through an
//! exclusive borrow — under a lock, concurrent appends serialize into a
//! chain of such calls, so sequence assignment, append and eviction are one
//! atomic step.

use vstd::prelude::*;

verus! {

/// Most entries the trail retains at once.
pub const AUDIT_CAPACITY: usize = 100;

/// One immutable record of a validation decision.
pub struct AuditEntry {
    /// Strictly increasing across the process lifetime, independent of
    /// eviction; the first entry ever gets 1.
    pub sequence: u64,
    /// Wall-clock display time of the decision, `DD/MM/YYYY, hh:mm:ss AM/PM`.
    pub timestamp_local: String,
    /// The composite credential the decision was about.
    pub subject: String,
    /// The decision message.
    pub message: String,
}

impl Clone for AuditEntry {
    fn clone(&self) -> (r: Self)
        ensures
            r.sequence == self.sequence,
            r.timestamp_local@ == self.timestamp_local@,
            r.subject@ == self.subject@,
            r.message@ == self.message@,
    {
        AuditEntry {
            sequence: self.sequence,
            timestamp_local: self.timestamp_local.clone(),
            subject: self.subject.clone(),
            message: self.message.clone(),
        }
    }
}

/// The entry records the given decision under the given sequence number.
pub open spec fn entry_matches(
    e: AuditEntry,
    sequence: u64,
    subject: Seq<char>,
    message: Seq<char>,
) -> bool {
    e.sequence == sequence && e.subject@ == subject && e.message@ == message
}

/// The bounded decision trail together with its sequence counter.
pub struct AuditLog {
    entries: Vec<AuditEntry>,
    next_seq: u64,
}

/// One append happened between `pre` and `post`, recording `subject` and
/// `message`: the new entry stands at the tail under the sequence number
/// `pre` was about to issue, the counter advanced by one, and everything
/// before the tail is `pre`'s trail, less its head when `pre` was full.
pub open spec fn appended_entry(
    pre: AuditLog,
    post: AuditLog,
    subject: Seq<char>,
    message: Seq<char>,
) -> bool {
    &&& post.next_sequence() == pre.next_sequence() + 1
    &&& post.log_view().len() >= 1
    &&& entry_matches(post.log_view().last(), pre.next_sequence(), subject, message)
    &&& post.log_view().drop_last() == (if pre.log_view().len() < AUDIT_CAPACITY {
        pre.log_view()
    } else {
        pre.log_view().drop_first()
    })
}

/// One append happened between `pre` and `post`, whatever it recorded.
pub open spec fn appended_any(pre: AuditLog, post: AuditLog) -> bool {
    exists|subject: Seq<char>, message: Seq<char>|
        #[trigger] appended_entry(pre, post, subject, message)
}

impl AuditLog {
    /// The retained entries, oldest first.
    pub closed spec fn log_view(self) -> Seq<AuditEntry> {
        self.entries@
    }

    /// The sequence number the next append will issue.
    pub closed spec fn next_sequence(self) -> u64 {
        self.next_seq
    }

    /// The trail never outgrows the capacity, and the retained sequence
    /// numbers are consecutive and end right below the counter.
    pub open spec fn wf(self) -> bool {
        &&& self.log_view().len() <= AUDIT_CAPACITY
        &&& self.next_sequence() >= self.log_view().len() + 1
        &&& forall|k: int|
            0 <= k < self.log_view().len()
                ==> (#[trigger] self.log_view()[k].sequence) as int == self.next_sequence()
                - self.log_view().len() + k
    }

    /// A fresh, empty trail; the first entry will get sequence number 1.
    pub fn new() -> (log: AuditLog)
        ensures
            log.wf(),
            log.log_view() == Seq::<AuditEntry>::empty(),
            log.next_sequence() == 1,
    {
        AuditLog { entries: Vec::new(), next_seq: 1 }
    }

    /// The sequence number the next append will issue, for callers outside
    /// the proof that must test the counter before appending.
    pub fn next_sequence_number(&self) -> (n: u64)
        ensures
            n == self.next_sequence(),
    {
        self.next_seq
    }

    /// Record one decision: the entry gets the next sequence number and the
    /// current wall-clock display time, enters at the tail, and evicts the
    /// oldest entry when the trail was full. Returns a copy of the entry.
    pub fn append(&mut self, subject: String, message: String) -> (e: AuditEntry)
        requires
            old(self).wf(),
            old(self).next_sequence() < u64::MAX,
        ensures
            final(self).wf(),
            appended_entry(*old(self), *final(self), subject@, message@),
            entry_matches(e, old(self).next_sequence(), subject@, message@),
            e.timestamp_local@ == final(self).log_view().last().timestamp_local@,
    {
        let timestamp_local = format_now_local();
        let entry = AuditEntry { sequence: self.next_seq, timestamp_local, subject, message };
        let copy = entry.clone();
        self.entries.push(entry);
        if self.entries.len() > AUDIT_CAPACITY {
            self.entries.remove(0);
        }
        self.next_seq = self.next_seq + 1;
        proof {
            assert(self.log_view().drop_last() =~= (if old(self).log_view().len()
                < AUDIT_CAPACITY {
                old(self).log_view()
            } else {
                old(self).log_view().drop_first()
            }));
        }
        copy
    }

    /// A point-in-time copy of the trail, oldest first: not a live view,
    /// so later appends leave it unchanged.
    pub fn snapshot(&self) -> (r: Vec<AuditEntry>)
        ensures
            r@.len() == self.log_view().len(),
            forall|k: int|
                0 <= k < r@.len() ==> entry_matches(
                    #[trigger] r@[k],
                    self.log_view()[k].sequence,
                    self.log_view()[k].subject@,
                    self.log_view()[k].message@,
                ) && r@[k].timestamp_local@ == self.log_view()[k].timestamp_local@,
    {
        let mut r: Vec<AuditEntry> = Vec::new();
        let mut idx: usize = 0;
        while idx < self.entries.len()
            invariant
                0 <= idx <= self.entries.len(),
                r@.len() == idx,
                forall|k: int|
                    0 <= k < idx ==> entry_matches(
                        #[trigger] r@[k],
                        self.entries@[k].sequence,
                        self.entries@[k].subject@,
                        self.entries@[k].message@,
                    ) && r@[k].timestamp_local@ == self.entries@[k].timestamp_local@,
            decreases self.entries.len() - idx,
        {
            r.push(self.entries[idx].clone());
            idx = idx + 1;
        }
        r
    }
}

/// Relies on chrono's `Local::now` and `format` with `%d/%m/%Y, %I:%M:%S %p`
/// for an entry's display timestamp. The text depends on the wall clock and
/// the host timezone, so nothing is promised of it.
#[verifier::external_body]
fn format_now_local() -> String {
    chrono::Local::now().format("%d/%m/%Y, %I:%M:%S %p").to_string()
}

/// Law: the trail never outgrows the capacity, and the append that issues
/// sequence number `AUDIT_CAPACITY + 1` to a full trail evicts exactly the
/// entry with sequence 1, while every other retained entry keeps its
/// sequence number and the retained numbers stay strictly increasing.
pub proof fn lemma_first_eviction(
    pre: AuditLog,
    post: AuditLog,
    subject: Seq<char>,
    message: Seq<char>,
)
    requires
        pre.wf(),
        pre.next_sequence() == AUDIT_CAPACITY + 1,
        pre.log_view().len() == AUDIT_CAPACITY,
        appended_entry(pre, post, subject, message),
    ensures
        post.log_view().len() == AUDIT_CAPACITY,
        forall|k: int|
            0 <= k < post.log_view().len() ==> (#[trigger] post.log_view()[k]).sequence != 1,
        forall|k: int|
            0 <= k < post.log_view().len() - 1 ==> (#[trigger] post.log_view()[k]).sequence
                == pre.log_view()[k + 1].sequence,
        forall|k: int|
            0 <= k < post.log_view().len() - 1 ==> (#[trigger] post.log_view()[k]).sequence
                < post.log_view()[k + 1].sequence,
{
    assert(post.log_view().drop_last() == pre.log_view().drop_first());
    assert(post.log_view().len() - 1 == pre.log_view().len() - 1);
    assert forall|k: int| 0 <= k < post.log_view().len() - 1 implies (#[trigger] post.log_view()[
        k
    ]).sequence == pre.log_view()[k + 1].sequence by {
        assert(post.log_view()[k] == post.log_view().drop_last()[k]);
        assert(pre.log_view().drop_first()[k] == pre.log_view()[k + 1]);
    }
}

/// Law: across any chain of appends — concurrent callers serialize on the
/// exclusive borrow, so every interleaving of N appends is such a chain —
/// the issued sequence numbers are exactly the N consecutive numbers that
/// follow the counter of the starting state, in order and without
/// duplicates, whatever the entries record.
pub proof fn lemma_issued_sequence_numbers(states: Seq<AuditLog>)
    requires
        states.len() >= 1,
        forall|k: int| 0 <= k < states.len() - 1 ==> appended_any(#[trigger] states[k], states[k + 1]),
    ensures
        forall|k: int|
            0 <= k < states.len() ==> (#[trigger] states[k].next_sequence()) as int == states[0].next_sequence()
                + k,
        forall|k: int|
            0 <= k < states.len() - 1 ==> (#[trigger] states[k + 1].log_view().last()).sequence
                as int == states[0].next_sequence() + k,
        forall|k1: int, k2: int|
            0 <= k1 < states.len() - 1 && 0 <= k2 < states.len() - 1 && k1 != k2
                ==> (#[trigger] states[k1 + 1].log_view().last()).sequence != (#[trigger] states[
                k2 + 1].log_view().last()).sequence,
    decreases states.len(),
{
    if states.len() > 1 {
        let prefix = states.drop_last();
        assert forall|k: int| 0 <= k < prefix.len() - 1 implies appended_any(
            #[trigger] prefix[k],
            prefix[k + 1],
        ) by {
            assert(appended_any(states[k], states[k + 1]));
        }
        lemma_issued_sequence_numbers(prefix);
        let n = states.len() - 1;
        assert forall|k: int| 0 <= k < n implies (#[trigger] states[k].next_sequence()) as int
            == states[0].next_sequence() + k by {
            assert(prefix[k] == states[k]);
            assert(prefix[0] == states[0]);
        }
        assert(appended_any(states[n - 1], states[n]));
        let (subject, message) = choose|subject: Seq<char>, message: Seq<char>|
            #[trigger] appended_entry(states[n - 1], states[n], subject, message);
        assert(states[n].next_sequence() == states[n - 1].next_sequence() + 1);
        assert forall|k: int| 0 <= k < states.len() - 1 implies (#[trigger] states[k
            + 1].log_view().last()).sequence as int == states[0].next_sequence() + k by {
            if k + 1 < n {
                assert(prefix[k] == states[k]);
                assert(prefix[k + 1] == states[k + 1]);
                assert(prefix[0] == states[0]);
            } else {
                assert(entry_matches(
                    states[n].log_view().last(),
                    states[n - 1].next_sequence(),
                    subject,
                    message,
                ));
            }
        }
    }
}

} // verus!
