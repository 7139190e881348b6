//! The frame pump: one direction of a session, as a state machine.
//!
//! The caller reads from the source into a fixed buffer, hands the outcome to
//! [`FramePump::step`], and performs the returned [`Step`]: write the first
//! `n` bytes of the buffer to each destination of the leg, read again, or stop.

use vstd::prelude::*;

verus! {

/// The three directions of a session.
#[derive(Clone, Copy, Debug, PartialEq, Eq, Structural)]
pub enum Leg {
    /// Client to backends: every chunk goes to the primary, then the shadow.
    Upstream,
    /// Primary to client: every chunk goes back to the client.
    Reply,
    /// Shadow replies: read and dropped.
    Discard,
}

/// A connection a pump may write to.
#[derive(Clone, Copy, Debug, PartialEq, Eq, Structural)]
pub enum Dest {
    Client,
    Primary,
    Shadow,
}

/// When a run of empty reads ends a pump.
#[derive(Clone, Copy, Debug, PartialEq, Eq, Structural)]
pub enum TerminationPolicy {
    /// Reads time out after the long idle threshold; the first timeout ends
    /// the pump.
    ReadTimeout,
    /// Reads time out after a short interval; the pump ends once this many
    /// consecutive reads have timed out (zero counts as one).
    IdleCount(u32),
}

/// What a read from the source gave.
#[derive(Clone, Copy, Debug, PartialEq, Eq, Structural)]
pub enum ReadResult {
    /// This many bytes were placed at the start of the buffer; zero means
    /// the peer closed the stream.
    Data(usize),
    /// No data arrived within the read timeout.
    TimedOut,
    /// The peer closed the stream.
    Closed,
    /// Any other I/O error.
    Failed,
}

/// Why a pump stopped.
#[derive(Clone, Copy, Debug, PartialEq, Eq, Structural)]
pub enum EndReason {
    /// Clean end of stream.
    Eof,
    /// A read failed, or reported more bytes than the buffer holds.
    ReadError,
    /// Too many consecutive reads timed out.
    IdleLimit,
    /// A write to a destination failed or timed out.
    WriteError,
}

/// What the caller does next.
#[derive(Clone, Copy, Debug, PartialEq, Eq, Structural)]
pub enum Step {
    /// Write the first `n` bytes of the buffer to each destination of the
    /// leg, in order, then read again.
    Forward(usize),
    /// Read again.
    Again,
    /// Stop this direction and tear the session down.
    Stop(EndReason),
}

/// The destinations of a leg, in the order they are written.
pub open spec fn destinations(leg: Leg) -> Seq<Dest> {
    match leg {
        Leg::Upstream => seq![Dest::Primary, Dest::Shadow],
        Leg::Reply => seq![Dest::Client],
        Leg::Discard => seq![],
    }
}

/// The number of consecutive timeouts that ends a pump.
pub open spec fn idle_limit(policy: TerminationPolicy) -> nat {
    match policy {
        TerminationPolicy::ReadTimeout => 1,
        TerminationPolicy::IdleCount(n) => if n == 0 {
            1
        } else {
            n as nat
        },
    }
}

/// A pump: its leg, its policy, the count of consecutive timeouts so far,
/// and why it ended, once it has.
#[derive(Clone, Copy, Debug)]
pub struct FramePump {
    pub leg: Leg,
    pub policy: TerminationPolicy,
    pub idle: u32,
    pub ended: Option<EndReason>,
}

/// The pump after it ends for `why`.
pub open spec fn ended_with(p: FramePump, why: EndReason) -> FramePump {
    FramePump { ended: Some(why), ..p }
}

/// One read outcome on a buffer of `buf_len` bytes: the next pump and the
/// step to perform. An ended pump stays as it is and keeps saying stop.
pub open spec fn pump_next(p: FramePump, buf_len: nat, r: ReadResult) -> (FramePump, Step) {
    match p.ended {
        Some(why) => (p, Step::Stop(why)),
        None => match r {
            ReadResult::Data(n) => if n == 0 {
                (ended_with(p, EndReason::Eof), Step::Stop(EndReason::Eof))
            } else if n > buf_len {
                (ended_with(p, EndReason::ReadError), Step::Stop(EndReason::ReadError))
            } else {
                (
                    FramePump { idle: 0, ..p },
                    if p.leg == Leg::Discard {
                        Step::Again
                    } else {
                        Step::Forward(n)
                    },
                )
            },
            ReadResult::TimedOut => if p.idle + 1 >= idle_limit(p.policy) {
                (ended_with(p, EndReason::IdleLimit), Step::Stop(EndReason::IdleLimit))
            } else {
                (FramePump { idle: (p.idle + 1) as u32, ..p }, Step::Again)
            },
            ReadResult::Closed => (ended_with(p, EndReason::Eof), Step::Stop(EndReason::Eof)),
            ReadResult::Failed => (
                ended_with(p, EndReason::ReadError),
                Step::Stop(EndReason::ReadError),
            ),
        },
    }
}

/// The pump after a write failure: it ends, keeping an earlier reason if it
/// had already ended.
pub open spec fn pump_write_failed(p: FramePump) -> FramePump {
    match p.ended {
        Some(_) => p,
        None => ended_with(p, EndReason::WriteError),
    }
}

/// The bytes a read placed in the buffer: the first `n` of them for a
/// non-empty read that fits, nothing otherwise.
pub open spec fn read_bytes(buf: Seq<u8>, r: ReadResult) -> Seq<u8> {
    match r {
        ReadResult::Data(n) => if 0 < n && n <= buf.len() {
            buf.subrange(0, n as int)
        } else {
            seq![]
        },
        _ => seq![],
    }
}

/// The bytes a step hands on from the buffer.
pub open spec fn step_bytes(buf: Seq<u8>, s: Step) -> Seq<u8> {
    match s {
        Step::Forward(n) => if n <= buf.len() {
            buf.subrange(0, n as int)
        } else {
            seq![]
        },
        _ => seq![],
    }
}

/// The pump after a run of reads, each a buffer and the read's outcome.
pub open spec fn pump_after(p: FramePump, reads: Seq<(Seq<u8>, ReadResult)>) -> FramePump
    decreases reads.len(),
{
    if reads.len() == 0 {
        p
    } else {
        pump_after(pump_next(p, reads[0].0.len(), reads[0].1).0, reads.drop_first())
    }
}

/// The bytes the pump took from its source over a run of reads, up to the
/// read that ended it.
pub open spec fn received(p: FramePump, reads: Seq<(Seq<u8>, ReadResult)>) -> Seq<u8>
    decreases reads.len(),
{
    if reads.len() == 0 || p.ended is Some {
        seq![]
    } else {
        read_bytes(reads[0].0, reads[0].1) + received(
            pump_next(p, reads[0].0.len(), reads[0].1).0,
            reads.drop_first(),
        )
    }
}

/// The bytes written to `d` over a run of reads, when the caller performs
/// each step the pump returns.
pub open spec fn delivered(p: FramePump, reads: Seq<(Seq<u8>, ReadResult)>, d: Dest) -> Seq<u8>
    decreases reads.len(),
{
    if reads.len() == 0 {
        seq![]
    } else {
        let (q, s) = pump_next(p, reads[0].0.len(), reads[0].1);
        (if destinations(p.leg).contains(d) {
            step_bytes(reads[0].0, s)
        } else {
            seq![]
        }) + delivered(q, reads.drop_first(), d)
    }
}

/// Every destination of a leg gets exactly the bytes the pump took from its
/// source, in order; any other connection gets nothing.
pub proof fn lemma_delivered_is_received(
    p: FramePump,
    reads: Seq<(Seq<u8>, ReadResult)>,
    d: Dest,
)
    ensures
        delivered(p, reads, d) == if destinations(p.leg).contains(d) {
            received(p, reads)
        } else {
            seq![]
        },
    decreases reads.len(),
{
    if reads.len() > 0 {
        let (q, s) = pump_next(p, reads[0].0.len(), reads[0].1);
        lemma_delivered_is_received(q, reads.drop_first(), d);
        assert(q.leg == p.leg);
        if p.ended is Some {
            lemma_ended_delivers_nothing(q, reads.drop_first(), d);
            assert(delivered(p, reads, d) =~= seq![]);
        } else if destinations(p.leg).contains(d) {
            assert(p.leg != Leg::Discard);
            assert(step_bytes(reads[0].0, s) == read_bytes(reads[0].0, reads[0].1));
        } else {
            assert(delivered(p, reads, d) =~= seq![]);
        }
    }
}

/// An ended pump writes nothing more.
pub proof fn lemma_ended_delivers_nothing(
    p: FramePump,
    reads: Seq<(Seq<u8>, ReadResult)>,
    d: Dest,
)
    requires
        p.ended is Some,
    ensures
        delivered(p, reads, d) == Seq::<u8>::empty(),
    decreases reads.len(),
{
    if reads.len() > 0 {
        lemma_ended_delivers_nothing(p, reads.drop_first(), d);
        assert(delivered(p, reads, d) =~= seq![]);
    }
}

/// The client-to-backends leg: the primary receives exactly the bytes read
/// from the client, in order, and so does the shadow; the client receives
/// none of them back.
pub proof fn lemma_upstream_copies_to_both(p: FramePump, reads: Seq<(Seq<u8>, ReadResult)>)
    requires
        p.leg == Leg::Upstream,
    ensures
        delivered(p, reads, Dest::Primary) == received(p, reads),
        delivered(p, reads, Dest::Shadow) == received(p, reads),
        delivered(p, reads, Dest::Client) == Seq::<u8>::empty(),
{
    assert(destinations(p.leg).contains(Dest::Primary)) by {
        assert(destinations(p.leg)[0] == Dest::Primary);
    }
    assert(destinations(p.leg).contains(Dest::Shadow)) by {
        assert(destinations(p.leg)[1] == Dest::Shadow);
    }
    lemma_delivered_is_received(p, reads, Dest::Primary);
    lemma_delivered_is_received(p, reads, Dest::Shadow);
    lemma_delivered_is_received(p, reads, Dest::Client);
}

/// The primary-reply leg: the client receives exactly the bytes the primary
/// sent, in order and unmodified.
pub proof fn lemma_reply_reaches_client(p: FramePump, reads: Seq<(Seq<u8>, ReadResult)>)
    requires
        p.leg == Leg::Reply,
    ensures
        delivered(p, reads, Dest::Client) == received(p, reads),
        delivered(p, reads, Dest::Primary) == Seq::<u8>::empty(),
        delivered(p, reads, Dest::Shadow) == Seq::<u8>::empty(),
{
    assert(destinations(p.leg)[0] == Dest::Client);
    lemma_delivered_is_received(p, reads, Dest::Primary);
    lemma_delivered_is_received(p, reads, Dest::Shadow);
    lemma_delivered_is_received(p, reads, Dest::Client);
}

/// The shadow-reply leg: whatever the shadow sends, and however the reads
/// fall, nothing is written anywhere, so the client never sees it.
pub proof fn lemma_discard_writes_nothing(
    p: FramePump,
    reads: Seq<(Seq<u8>, ReadResult)>,
    d: Dest,
)
    requires
        p.leg == Leg::Discard,
    ensures
        delivered(p, reads, d) == Seq::<u8>::empty(),
{
    lemma_delivered_is_received(p, reads, d);
}

/// An ended pump is not changed by further reads.
pub proof fn lemma_ended_stays(p: FramePump, reads: Seq<(Seq<u8>, ReadResult)>)
    requires
        p.ended is Some,
    ensures
        pump_after(p, reads) == p,
    decreases reads.len(),
{
    if reads.len() > 0 {
        lemma_ended_stays(p, reads.drop_first());
    }
}

/// A run of reads that all time out ends a running pump exactly when the
/// count of consecutive timeouts reaches the policy's limit; before that the
/// pump keeps running and counts them.
pub proof fn lemma_idle_run_ends_pump(p: FramePump, reads: Seq<(Seq<u8>, ReadResult)>)
    requires
        p.ended is None,
        p.idle < idle_limit(p.policy),
        forall|i: int| 0 <= i < reads.len() ==> #[trigger] reads[i].1 == ReadResult::TimedOut,
    ensures
        p.idle + reads.len() >= idle_limit(p.policy) ==> pump_after(p, reads).ended == Some(
            EndReason::IdleLimit,
        ),
        p.idle + reads.len() < idle_limit(p.policy) ==> pump_after(p, reads) == (FramePump {
            idle: (p.idle + reads.len()) as u32,
            ..p
        }),
    decreases reads.len(),
{
    if reads.len() > 0 {
        assert(reads[0].1 == ReadResult::TimedOut);
        let q = pump_next(p, reads[0].0.len(), reads[0].1).0;
        let rest = reads.drop_first();
        assert forall|i: int| 0 <= i < rest.len() implies #[trigger] rest[i].1
            == ReadResult::TimedOut by {
            assert(rest[i] == reads[i + 1]);
        }
        if p.idle + 1 >= idle_limit(p.policy) {
            lemma_ended_stays(q, rest);
        } else {
            lemma_idle_run_ends_pump(q, rest);
        }
    }
}

impl Leg {
    /// The destinations of this leg, in write order.
    pub fn destinations(&self) -> (r: Vec<Dest>)
        ensures
            r@ == destinations(*self),
    {
        match self {
            Leg::Upstream => vec![Dest::Primary, Dest::Shadow],
            Leg::Reply => vec![Dest::Client],
            Leg::Discard => Vec::new(),
        }
    }
}

impl FramePump {
    /// A fresh pump for `leg` under `policy`.
    pub fn new(leg: Leg, policy: TerminationPolicy) -> (p: FramePump)
        ensures
            p == (FramePump { leg, policy, idle: 0, ended: None }),
    {
        FramePump { leg, policy, idle: 0, ended: None }
    }

    fn limit(&self) -> (r: u32)
        ensures
            r as nat == idle_limit(self.policy),
    {
        match self.policy {
            TerminationPolicy::ReadTimeout => 1,
            TerminationPolicy::IdleCount(n) => if n == 0 {
                1
            } else {
                n
            },
        }
    }

    /// Takes the outcome of one read into `buf` and says what to do with it.
    pub fn step(&mut self, buf: &[u8], r: ReadResult) -> (s: Step)
        ensures
            (*final(self), s) == pump_next(*old(self), buf@.len(), r),
    {
        match self.ended {
            Some(why) => Step::Stop(why),
            None => match r {
                ReadResult::Data(n) => {
                    if n == 0 {
                        self.ended = Some(EndReason::Eof);
                        Step::Stop(EndReason::Eof)
                    } else if n > buf.len() {
                        self.ended = Some(EndReason::ReadError);
                        Step::Stop(EndReason::ReadError)
                    } else {
                        self.idle = 0;
                        if self.leg == Leg::Discard {
                            Step::Again
                        } else {
                            Step::Forward(n)
                        }
                    }
                },
                ReadResult::TimedOut => {
                    if self.idle >= self.limit() - 1 {
                        self.ended = Some(EndReason::IdleLimit);
                        Step::Stop(EndReason::IdleLimit)
                    } else {
                        self.idle = self.idle + 1;
                        Step::Again
                    }
                },
                ReadResult::Closed => {
                    self.ended = Some(EndReason::Eof);
                    Step::Stop(EndReason::Eof)
                },
                ReadResult::Failed => {
                    self.ended = Some(EndReason::ReadError);
                    Step::Stop(EndReason::ReadError)
                },
            },
        }
    }

    /// Records that a write to a destination failed; the pump stops.
    pub fn write_failed(&mut self) -> (s: Step)
        ensures
            *final(self) == pump_write_failed(*old(self)),
            s == Step::Stop(final(self).ended.unwrap()),
    {
        if self.ended.is_none() {
            self.ended = Some(EndReason::WriteError);
        }
        match self.ended {
            Some(why) => Step::Stop(why),
            None => Step::Stop(EndReason::WriteError),
        }
    }

    /// Whether the pump has stopped.
    pub fn is_finished(&self) -> (r: bool)
        ensures
            r == self.ended.is_some(),
    {
        self.ended.is_some()
    }
}

} // verus!
