//! The request/response correlation engine of one netlink connection.
//!
//! The actor owns the socket (outside this library) and this state: a
//! monotonic sequence counter and the table of pending registrations, one
//! per outstanding request. A host program drives it as a loop: it calls
//! [`ConnectionActor::register`] when a request is sent, tags the request
//! with the returned sequence number, and for every decoded incoming
//! reply calls [`ConnectionActor::route_incoming`] and performs the
//! returned [`RouteAction`] — forwarding the reply to the registered
//! caller's channel, or to the broadcast channel for unsolicited
//! messages. Every decision is made here, in verified code; the host only
//! moves bytes and channel messages.

use vstd::prelude::*;
use crate::proto::ReplyMessage;

verus! {

/// One live registration: an outstanding request's sequence number and
/// the identifier of the channel its replies are forwarded to.
#[derive(Clone, Copy, Debug, PartialEq, Eq, Structural)]
pub struct PendingEntry {
    pub sequence: u32,
    pub channel: u64,
}

/// What the host must do with one incoming reply.
#[derive(Clone, Copy, Debug, PartialEq, Eq, Structural)]
pub enum RouteAction {
    /// Forward the reply to the caller behind `channel`; if `done`, that
    /// caller's stream ends with this reply and its registration is gone.
    Deliver { channel: u64, done: bool },
    /// No registration matches: forward to the broadcast channel.
    Broadcast,
}

/// No two entries carry the same sequence number.
pub open spec fn unique_sequences(entries: Seq<PendingEntry>) -> bool {
    forall|i: int, j: int|
        0 <= i < j < entries.len() ==> #[trigger] entries[i].sequence != #[trigger] entries[j].sequence
}

/// The channel a registration maps a sequence number to, scanning the
/// table front to back.
pub open spec fn seq_find(entries: Seq<PendingEntry>, sequence: u32) -> Option<u64>
    decreases entries.len(),
{
    if entries.len() == 0 {
        None
    } else if entries[0].sequence == sequence {
        Some(entries[0].channel)
    } else {
        seq_find(entries.drop_first(), sequence)
    }
}

/// If the entry at `i` holds the sequence and no earlier entry does, the
/// scan finds exactly that entry's channel.
proof fn lemma_seq_find_hit(entries: Seq<PendingEntry>, i: int, sequence: u32)
    requires
        0 <= i < entries.len(),
        entries[i].sequence == sequence,
        forall|j: int| 0 <= j < i ==> #[trigger] entries[j].sequence != sequence,
    ensures
        seq_find(entries, sequence) == Some(entries[i].channel),
    decreases i,
{
    if i > 0 {
        lemma_seq_find_hit(entries.drop_first(), i - 1, sequence);
    }
}

/// If the scan finds nothing, no entry holds the sequence.
proof fn lemma_seq_find_none_absent(entries: Seq<PendingEntry>, sequence: u32)
    requires
        seq_find(entries, sequence) is None,
    ensures
        forall|j: int| 0 <= j < entries.len() ==> #[trigger] entries[j].sequence != sequence,
    decreases entries.len(),
{
    if entries.len() > 0 {
        lemma_seq_find_none_absent(entries.drop_first(), sequence);
        assert forall|j: int| 0 <= j < entries.len() implies #[trigger] entries[j].sequence
            != sequence by {
            if j > 0 {
                assert(entries.drop_first()[j - 1] == entries[j]);
            }
        }
    }
}

/// If no entry holds the sequence, the scan finds nothing.
proof fn lemma_seq_find_miss(entries: Seq<PendingEntry>, sequence: u32)
    requires
        forall|j: int| 0 <= j < entries.len() ==> #[trigger] entries[j].sequence != sequence,
    ensures
        seq_find(entries, sequence) is None,
    decreases entries.len(),
{
    if entries.len() > 0 {
        lemma_seq_find_miss(entries.drop_first(), sequence);
    }
}

/// The table with every entry of the given sequence number removed.
pub open spec fn seq_remove(entries: Seq<PendingEntry>, sequence: u32) -> Seq<PendingEntry>
    decreases entries.len(),
{
    if entries.len() == 0 {
        entries
    } else if entries[0].sequence == sequence {
        seq_remove(entries.drop_first(), sequence)
    } else {
        seq![entries[0]] + seq_remove(entries.drop_first(), sequence)
    }
}

/// Removing an absent sequence number changes nothing.
proof fn lemma_seq_remove_absent(entries: Seq<PendingEntry>, sequence: u32)
    requires
        forall|j: int| 0 <= j < entries.len() ==> #[trigger] entries[j].sequence != sequence,
    ensures
        seq_remove(entries, sequence) == entries,
    decreases entries.len(),
{
    if entries.len() > 0 {
        lemma_seq_remove_absent(entries.drop_first(), sequence);
        assert(seq_remove(entries, sequence) =~= entries);
    }
}

/// What removal leaves behind scans exactly as before for every other
/// sequence number, and scans to nothing for the removed one.
proof fn lemma_seq_find_after_seq_remove(entries: Seq<PendingEntry>, sequence: u32, s: u32)
    ensures
        seq_find(seq_remove(entries, sequence), s) == if s == sequence {
            None
        } else {
            seq_find(entries, s)
        },
    decreases entries.len(),
{
    if entries.len() > 0 {
        lemma_seq_find_after_seq_remove(entries.drop_first(), sequence, s);
        if entries[0].sequence != sequence {
            let tail = seq_remove(entries.drop_first(), sequence);
            assert((seq![entries[0]] + tail).drop_first() =~= tail);
        }
    }
}

/// With unique sequence numbers, removing by sequence number is the same
/// as removing the one entry that holds it.
proof fn lemma_seq_remove_is_remove_index(entries: Seq<PendingEntry>, i: int)
    requires
        unique_sequences(entries),
        0 <= i < entries.len(),
    ensures
        seq_remove(entries, entries[i].sequence) == entries.remove(i),
    decreases entries.len(),
{
    let s = entries[i].sequence;
    if i == 0 {
        assert forall|j: int|
            0 <= j < entries.drop_first().len() implies #[trigger] entries.drop_first()[j].sequence
            != s by {
            assert(entries.drop_first()[j] == entries[j + 1]);
        }
        lemma_seq_remove_absent(entries.drop_first(), s);
        assert(entries.remove(0) =~= entries.drop_first());
    } else {
        assert forall|j: int, k: int|
            0 <= j < k < entries.drop_first().len() implies #[trigger] entries.drop_first()[j].sequence
            != #[trigger] entries.drop_first()[k].sequence by {
            assert(entries.drop_first()[j] == entries[j + 1]);
            assert(entries.drop_first()[k] == entries[k + 1]);
        }
        assert(entries.drop_first()[i - 1] == entries[i]);
        lemma_seq_remove_is_remove_index(entries.drop_first(), i - 1);
        assert(entries.remove(i) =~= seq![entries[0]] + entries.drop_first().remove(i - 1));
    }
}

/// The state of the connection actor.
#[derive(Clone, Debug, PartialEq, Eq)]
pub struct ConnectionActor {
    /// The last sequence number handed out; the next request gets the
    /// successor, wrapping around.
    pub next_sequence: u32,
    /// Fresh channel identifiers come from this counter, so no two
    /// registrations ever share one.
    pub next_channel: u64,
    /// The live registrations.
    pub pending: Vec<PendingEntry>,
}

impl ConnectionActor {
    /// Structural invariant: sequence numbers of live registrations are
    /// pairwise distinct, and every channel was drawn from the counter,
    /// so channels are pairwise distinct too.
    pub open spec fn wf(self) -> bool {
        &&& unique_sequences(self.pending@)
        &&& forall|i: int, j: int|
            0 <= i < j < self.pending@.len() ==> #[trigger] self.pending@[i].channel
                != #[trigger] self.pending@[j].channel
        &&& forall|i: int|
            0 <= i < self.pending@.len() ==> #[trigger] self.pending@[i].channel
                < self.next_channel
    }

    /// The successor of a sequence number, wrapping around at the top.
    pub open spec fn spec_next_sequence(cur: u32) -> u32 {
        if cur == u32::MAX {
            0
        } else {
            (cur + 1) as u32
        }
    }

    pub fn new() -> (r: ConnectionActor)
        ensures
            r.wf(),
            r.next_sequence == 0,
            r.next_channel == 0,
            r.pending@ == Seq::<PendingEntry>::empty(),
    {
        ConnectionActor { next_sequence: 0, next_channel: 0, pending: Vec::new() }
    }

    /// How many requests are outstanding.
    pub fn pending_len(&self) -> (r: usize)
        ensures
            r == self.pending@.len(),
    {
        self.pending.len()
    }

    /// Find the registration of a sequence number, if any.
    fn find_pending(&self, sequence: u32) -> (r: Option<usize>)
        ensures
            match r {
                Some(i) => {
                    &&& i < self.pending@.len()
                    &&& self.pending@[i as int].sequence == sequence
                    &&& forall|j: int|
                        0 <= j < i ==> #[trigger] self.pending@[j].sequence != sequence
                    &&& seq_find(self.pending@, sequence) == Some(
                        self.pending@[i as int].channel,
                    )
                },
                None => seq_find(self.pending@, sequence) is None,
            },
    {
        let n: usize = self.pending.len();
        let mut i: usize = 0;
        while i < n
            invariant
                n == self.pending@.len(),
                i <= n,
                forall|j: int| 0 <= j < i ==> #[trigger] self.pending@[j].sequence != sequence,
            decreases n - i,
        {
            if self.pending[i].sequence == sequence {
                proof {
                    lemma_seq_find_hit(self.pending@, i as int, sequence);
                }
                return Some(i);
            }
            i += 1;
        }
        proof {
            lemma_seq_find_miss(self.pending@, sequence);
        }
        None
    }

    /// Drop the registration of a sequence number, if one is live. The
    /// host calls this when it finds a caller's receiver gone
    /// (cancellation); the actor itself uses it on terminal replies.
    pub fn remove_registration(&mut self, sequence: u32) -> (removed: bool)
        requires
            old(self).wf(),
        ensures
            final(self).wf(),
            final(self).next_sequence == old(self).next_sequence,
            final(self).next_channel == old(self).next_channel,
            removed == (seq_find(old(self).pending@, sequence) is Some),
            final(self).pending@ == seq_remove(old(self).pending@, sequence),
            seq_find(final(self).pending@, sequence) is None,
            forall|s: u32|
                s != sequence ==> #[trigger] seq_find(final(self).pending@, s) == seq_find(
                    old(self).pending@,
                    s,
                ),
            final(self).pending@.len() <= old(self).pending@.len(),
    {
        let found = self.find_pending(sequence);
        match found {
            Some(i) => {
                let ghost before = self.pending@;
                self.pending.remove(i);
                proof {
                    before.remove_ensures(i as int);
                    lemma_seq_remove_is_remove_index(before, i as int);
                    assert forall|j: int|
                        0 <= j < self.pending@.len() implies #[trigger] self.pending@[j].sequence
                        != sequence by {
                        if j < i {
                            assert(self.pending@[j] == before[j]);
                        } else {
                            assert(self.pending@[j] == before[j + 1]);
                        }
                    }
                    lemma_seq_find_miss(self.pending@, sequence);
                    assert forall|s: u32| s != sequence implies #[trigger] seq_find(
                        self.pending@,
                        s,
                    ) == seq_find(before, s) by {
                        lemma_find_agrees_after_remove(before, i as int, s);
                    }
                }
                true
            },
            None => {
                proof {
                    lemma_seq_find_none_absent(self.pending@, sequence);
                    lemma_seq_remove_absent(self.pending@, sequence);
                }
                false
            },
        }
    }

    /// Register a new outstanding request: allocate the next sequence
    /// number and a fresh reply channel identifier for it. If the
    /// sequence number is still occupied by a stale registration after a
    /// counter wrap-around, the stale entry is dropped first: replies can
    /// only ever reach the newest registration of a sequence number.
    pub fn register(&mut self) -> (r: (u32, u64))
        requires
            old(self).wf(),
            old(self).next_channel < u64::MAX,
        ensures
            final(self).wf(),
            r.0 == ConnectionActor::spec_next_sequence(old(self).next_sequence),
            r.1 == old(self).next_channel,
            final(self).next_sequence == r.0,
            final(self).next_channel == old(self).next_channel + 1,
            seq_find(final(self).pending@, r.0) == Some(r.1),
            forall|s: u32|
                s != r.0 ==> #[trigger] seq_find(final(self).pending@, s) == seq_find(
                    old(self).pending@,
                    s,
                ),
    {
        let sequence: u32 = if self.next_sequence == u32::MAX {
            0
        } else {
            self.next_sequence + 1
        };
        self.next_sequence = sequence;
        let channel: u64 = self.next_channel;
        self.remove_registration(sequence);
        let ghost cleared = self.pending@;
        let entry = PendingEntry { sequence, channel };
        self.pending.push(entry);
        self.next_channel = channel + 1;
        proof {
            assert(self.pending@ == cleared.push(entry));
            assert(forall|j: int|
                0 <= j < cleared.len() ==> #[trigger] cleared[j] == self.pending@[j]);
            // The cleared table has no entry with this sequence, so the
            // scan reaches the pushed entry.
            assert forall|j: int| 0 <= j < cleared.len() implies #[trigger] cleared[j].sequence
                != sequence by {
                if cleared[j].sequence == sequence {
                    lemma_seq_find_hit(cleared, j, sequence);
                }
            }
            lemma_seq_find_hit(self.pending@, cleared.len() as int, sequence);
            assert forall|s: u32| s != sequence implies #[trigger] seq_find(self.pending@, s)
                == seq_find(cleared, s) by {
                lemma_find_agrees_after_push(cleared, entry, s);
            }
        }
        (sequence, channel)
    }

    /// What [`Self::route_incoming`] decides, as a function of the
    /// registration table.
    pub open spec fn spec_route_action(
        pending: Seq<PendingEntry>,
        message: ReplyMessage,
    ) -> RouteAction {
        match seq_find(pending, message.sequence) {
            Some(channel) => RouteAction::Deliver {
                channel,
                done: message.payload.spec_is_terminal(),
            },
            None => RouteAction::Broadcast,
        }
    }

    /// The registration table after one reply is routed: a terminal
    /// reply completes its registration.
    pub open spec fn spec_table_after(
        pending: Seq<PendingEntry>,
        message: ReplyMessage,
    ) -> Seq<PendingEntry> {
        if seq_find(pending, message.sequence) is Some && message.payload.spec_is_terminal() {
            seq_remove(pending, message.sequence)
        } else {
            pending
        }
    }

    /// Decide where one incoming reply goes. A reply whose sequence
    /// number has a live registration is delivered to that caller's
    /// channel; a terminal reply (DONE, ACK, ERROR, overrun) completes
    /// the registration, which is removed so the caller's stream observes
    /// exactly one terminal item and then ends. Anything else — an
    /// unsolicited notification, or a late reply to a completed or
    /// cancelled request — goes to the broadcast channel.
    pub fn route_incoming(&mut self, message: &ReplyMessage) -> (r: RouteAction)
        requires
            old(self).wf(),
        ensures
            final(self).wf(),
            final(self).next_sequence == old(self).next_sequence,
            final(self).next_channel == old(self).next_channel,
            r == ConnectionActor::spec_route_action(old(self).pending@, *message),
            final(self).pending@ == ConnectionActor::spec_table_after(
                old(self).pending@,
                *message,
            ),
            seq_find(final(self).pending@, message.sequence) == if message
                .payload.spec_is_terminal() {
                None
            } else {
                seq_find(old(self).pending@, message.sequence)
            },
            forall|s: u32|
                s != message.sequence ==> #[trigger] seq_find(final(self).pending@, s) == seq_find(
                    old(self).pending@,
                    s,
                ),
    {
        let found = self.find_pending(message.sequence);
        match found {
            Some(i) => {
                let channel = self.pending[i].channel;
                let done = message.payload.is_terminal();
                if done {
                    self.remove_registration(message.sequence);
                }
                RouteAction::Deliver { channel, done }
            },
            None => RouteAction::Broadcast,
        }
    }
}

/// Removing the entry at `i` does not change what any other sequence
/// number scans to, provided sequence numbers are unique.
proof fn lemma_find_agrees_after_remove(entries: Seq<PendingEntry>, i: int, s: u32)
    requires
        unique_sequences(entries),
        0 <= i < entries.len(),
        s != entries[i].sequence,
    ensures
        seq_find(entries.remove(i), s) == seq_find(entries, s),
{
    entries.remove_ensures(i);
    let removed = entries.remove(i);
    if exists|j: int| 0 <= j < entries.len() && #[trigger] entries[j].sequence == s {
        let j = choose|j: int| 0 <= j < entries.len() && #[trigger] entries[j].sequence == s;
        lemma_seq_find_hit(entries, j, s);
        if j < i {
            lemma_seq_find_hit(removed, j, s);
        } else {
            lemma_seq_find_hit(removed, j - 1, s);
        }
    } else {
        lemma_seq_find_miss(entries, s);
        lemma_seq_find_miss(removed, s);
    }
}

/// The actions the actor takes on a batch of incoming replies, routed
/// one after the other.
pub open spec fn spec_route_trace(
    pending: Seq<PendingEntry>,
    msgs: Seq<ReplyMessage>,
) -> Seq<RouteAction>
    decreases msgs.len(),
{
    if msgs.len() == 0 {
        Seq::empty()
    } else {
        seq![ConnectionActor::spec_route_action(pending, msgs[0])] + spec_route_trace(
            ConnectionActor::spec_table_after(pending, msgs[0]),
            msgs.drop_first(),
        )
    }
}

/// The registration table after a batch of incoming replies.
pub open spec fn spec_table_after_all(
    pending: Seq<PendingEntry>,
    msgs: Seq<ReplyMessage>,
) -> Seq<PendingEntry>
    decreases msgs.len(),
{
    if msgs.len() == 0 {
        pending
    } else {
        spec_table_after_all(
            ConnectionActor::spec_table_after(pending, msgs[0]),
            msgs.drop_first(),
        )
    }
}

/// Each incoming reply produces exactly one routing action.
pub proof fn lemma_route_trace_len(pending: Seq<PendingEntry>, msgs: Seq<ReplyMessage>)
    ensures
        spec_route_trace(pending, msgs).len() == msgs.len(),
    decreases msgs.len(),
{
    if msgs.len() > 0 {
        lemma_route_trace_len(
            ConnectionActor::spec_table_after(pending, msgs[0]),
            msgs.drop_first(),
        );
    }
}

/// Sequence uniqueness: no two concurrently outstanding requests share a
/// sequence number, nor a reply channel.
pub proof fn lemma_sequence_uniqueness(s: ConnectionActor, i: int, j: int)
    requires
        s.wf(),
        0 <= i < j < s.pending@.len(),
    ensures
        s.pending@[i].sequence != s.pending@[j].sequence,
        s.pending@[i].channel != s.pending@[j].channel,
{
}

/// Reuse of a completed sequence number cannot reach the old caller:
/// once the registration of a sequence number is gone, a reply carrying
/// it is broadcast rather than delivered, and the channel identifier
/// that the next registration will draw (the counter's current value)
/// differs from every channel handed out before.
pub proof fn lemma_stale_caller_excluded(s: ConnectionActor, old_channel: u64, m: ReplyMessage)
    requires
        s.wf(),
        old_channel < s.next_channel,
        seq_find(s.pending@, m.sequence) is None,
    ensures
        ConnectionActor::spec_route_action(s.pending@, m) == RouteAction::Broadcast,
        s.next_channel != old_channel,
{
}

/// Routing never creates registrations: a sequence number without one
/// stays without one, whatever arrives.
pub proof fn lemma_absence_is_stable(
    pending: Seq<PendingEntry>,
    m: ReplyMessage,
    sequence: u32,
)
    requires
        seq_find(pending, sequence) is None,
    ensures
        seq_find(ConnectionActor::spec_table_after(pending, m), sequence) is None,
{
    lemma_seq_find_after_seq_remove(pending, m.sequence, sequence);
}

/// While a registration is live and no reply for it arrives that is
/// terminal, routing other traffic leaves its binding untouched.
pub proof fn lemma_binding_is_stable(
    pending: Seq<PendingEntry>,
    m: ReplyMessage,
    sequence: u32,
    channel: u64,
)
    requires
        seq_find(pending, sequence) == Some(channel),
        m.sequence == sequence ==> !m.payload.spec_is_terminal(),
    ensures
        seq_find(ConnectionActor::spec_table_after(pending, m), sequence) == Some(channel),
{
    lemma_seq_find_after_seq_remove(pending, m.sequence, sequence);
}

/// After a registration has completed (or was cancelled), none of the
/// replies that still carry its sequence number is delivered anywhere:
/// they all go to the broadcast channel. With
/// [`lemma_single_terminal_delivery`] this bounds every caller's stream:
/// one terminal item, then nothing.
pub proof fn lemma_no_delivery_without_registration(
    pending: Seq<PendingEntry>,
    msgs: Seq<ReplyMessage>,
    sequence: u32,
)
    requires
        seq_find(pending, sequence) is None,
    ensures
        forall|k: int|
            0 <= k < msgs.len() && #[trigger] msgs[k].sequence == sequence ==> spec_route_trace(
                pending,
                msgs,
            )[k] == RouteAction::Broadcast,
    decreases msgs.len(),
{
    lemma_route_trace_len(pending, msgs);
    if msgs.len() > 0 {
        let table1 = ConnectionActor::spec_table_after(pending, msgs[0]);
        lemma_absence_is_stable(pending, msgs[0], sequence);
        lemma_no_delivery_without_registration(table1, msgs.drop_first(), sequence);
        lemma_route_trace_len(table1, msgs.drop_first());
        let trace = spec_route_trace(pending, msgs);
        let tail = spec_route_trace(table1, msgs.drop_first());
        assert forall|k: int|
            0 <= k < msgs.len() && #[trigger] msgs[k].sequence == sequence implies trace[k]
            == RouteAction::Broadcast by {
            if k > 0 {
                assert(msgs.drop_first()[k - 1] == msgs[k]);
                assert(trace[k] == tail[k - 1]);
            }
        }
    }
}

/// ACK/ERROR exclusivity, and the dump terminator's finality: while a
/// request's registration is live on channel `c`, the replies for its
/// sequence number are delivered to `c` in order, non-terminal ones as
/// stream items; the first terminal reply — the single ACK or ERROR of a
/// non-DUMP request, or a DUMP's DONE or mid-stream ERROR — is delivered
/// to `c` as terminal, and every reply for that sequence number after it
/// is broadcast, never delivered. The caller therefore observes exactly
/// one terminal item, and its stream ends there.
pub proof fn lemma_single_terminal_delivery(
    pending: Seq<PendingEntry>,
    msgs: Seq<ReplyMessage>,
    sequence: u32,
    channel: u64,
    k: int,
)
    requires
        seq_find(pending, sequence) == Some(channel),
        0 <= k < msgs.len(),
        msgs[k].sequence == sequence,
        msgs[k].payload.spec_is_terminal(),
        forall|j: int|
            0 <= j < k && #[trigger] msgs[j].sequence == sequence ==> !msgs[j].payload.spec_is_terminal(),
    ensures
        spec_route_trace(pending, msgs)[k] == (RouteAction::Deliver { channel, done: true }),
        forall|j: int|
            0 <= j < k && #[trigger] msgs[j].sequence == sequence ==> spec_route_trace(
                pending,
                msgs,
            )[j] == (RouteAction::Deliver { channel, done: false }),
        forall|j: int|
            k < j < msgs.len() && #[trigger] msgs[j].sequence == sequence ==> spec_route_trace(
                pending,
                msgs,
            )[j] == RouteAction::Broadcast,
    decreases msgs.len(),
{
    lemma_route_trace_len(pending, msgs);
    let table1 = ConnectionActor::spec_table_after(pending, msgs[0]);
    let trace = spec_route_trace(pending, msgs);
    let tail = spec_route_trace(table1, msgs.drop_first());
    lemma_route_trace_len(table1, msgs.drop_first());
    if k == 0 {
        lemma_seq_find_after_seq_remove(pending, sequence, sequence);
        lemma_no_delivery_without_registration(table1, msgs.drop_first(), sequence);
        assert forall|j: int|
            0 < j < msgs.len() && #[trigger] msgs[j].sequence == sequence implies trace[j]
            == RouteAction::Broadcast by {
            assert(msgs.drop_first()[j - 1] == msgs[j]);
            assert(trace[j] == tail[j - 1]);
        }
    } else {
        lemma_binding_is_stable(pending, msgs[0], sequence, channel);
        assert(msgs.drop_first()[k - 1] == msgs[k]);
        assert forall|j: int|
            0 <= j < k - 1 && #[trigger] msgs.drop_first()[j].sequence == sequence implies !msgs.drop_first()[j].payload.spec_is_terminal() by {
            assert(msgs.drop_first()[j] == msgs[j + 1]);
        }
        lemma_single_terminal_delivery(table1, msgs.drop_first(), sequence, channel, k - 1);
        assert(trace[k] == tail[k - 1]);
        assert forall|j: int|
            0 <= j < k && #[trigger] msgs[j].sequence == sequence implies trace[j] == (
            RouteAction::Deliver { channel, done: false }) by {
            if j > 0 {
                assert(msgs.drop_first()[j - 1] == msgs[j]);
                assert(trace[j] == tail[j - 1]);
            }
        }
        assert forall|j: int|
            k < j < msgs.len() && #[trigger] msgs[j].sequence == sequence implies trace[j]
            == RouteAction::Broadcast by {
            assert(msgs.drop_first()[j - 1] == msgs[j]);
            assert(trace[j] == tail[j - 1]);
        }
    }
}

/// Dump batching is immaterial: routing two batches one after the other
/// takes exactly the actions of routing their concatenation, and leaves
/// the same registrations. However the kernel splits a reply stream into
/// datagrams, the callers observe the same deliveries.
pub proof fn lemma_batching_immaterial(
    pending: Seq<PendingEntry>,
    first: Seq<ReplyMessage>,
    second: Seq<ReplyMessage>,
)
    ensures
        spec_route_trace(pending, first + second) == spec_route_trace(pending, first)
            + spec_route_trace(spec_table_after_all(pending, first), second),
        spec_table_after_all(pending, first + second) == spec_table_after_all(
            spec_table_after_all(pending, first),
            second,
        ),
    decreases first.len(),
{
    if first.len() == 0 {
        assert(first + second =~= second);
        assert(spec_route_trace(pending, first) + spec_route_trace(pending, second)
            =~= spec_route_trace(pending, second));
    } else {
        let joined = first + second;
        assert(joined[0] == first[0]);
        assert(joined.drop_first() =~= first.drop_first() + second);
        let table1 = ConnectionActor::spec_table_after(pending, first[0]);
        lemma_batching_immaterial(table1, first.drop_first(), second);
        assert(spec_route_trace(pending, joined) =~= spec_route_trace(pending, first)
            + spec_route_trace(spec_table_after_all(pending, first), second));
    }
}

/// Appending an entry does not change what any other sequence number
/// scans to.
proof fn lemma_find_agrees_after_push(entries: Seq<PendingEntry>, entry: PendingEntry, s: u32)
    requires
        unique_sequences(entries),
        s != entry.sequence,
    ensures
        seq_find(entries.push(entry), s) == seq_find(entries, s),
{
    let pushed = entries.push(entry);
    if exists|j: int| 0 <= j < entries.len() && #[trigger] entries[j].sequence == s {
        let j = choose|j: int| 0 <= j < entries.len() && #[trigger] entries[j].sequence == s;
        lemma_seq_find_hit(entries, j, s);
        lemma_seq_find_hit(pushed, j, s);
    } else {
        lemma_seq_find_miss(entries, s);
        lemma_seq_find_miss(pushed, s);
    }
}

} // verus!
