//! Splitting oversized logical messages across frames, and reassembling
//! them on arrival.
//!
//! A message whose encoded payload fits one frame's budget travels as a
//! single terminal part, unchanged.  A larger one is split into ordered
//! parts under a wrapping session identifier; every part carries the
//! originating device id, the session, its sequence index and a terminal
//! flag.  Reassembly keeps one session per originating device, discards a
//! session on any out-of-order part, and evicts sessions older than a
//! configured maximum age before each new part is processed.

use vstd::prelude::*;

verus! {

/// One part of a (possibly split) logical message.
#[derive(Debug, Clone)]
pub struct FragmentPart {
    /// Bus address of the originating device.
    pub device_id: u8,
    /// Reassembly session this part belongs to.
    pub session: u8,
    /// Position of this part within its message.
    pub seq: u16,
    /// Whether this is the last part of its message.
    pub terminal: bool,
    /// The carried slice of the message payload.
    pub data: Vec<u8>,
}

/// The mathematical image of one part.
pub ghost struct FragmentPartView {
    pub device_id: u8,
    pub session: u8,
    pub seq: u16,
    pub terminal: bool,
    pub data: Seq<u8>,
}

impl View for FragmentPart {
    type V = FragmentPartView;

    open spec fn view(&self) -> FragmentPartView {
        FragmentPartView {
            device_id: self.device_id,
            session: self.session,
            seq: self.seq,
            terminal: self.terminal,
            data: self.data@,
        }
    }
}

/// The images of a sequence of parts.
pub open spec fn parts_view(parts: Seq<FragmentPart>) -> Seq<FragmentPartView> {
    parts.map_values(|p: FragmentPart| p@)
}

/// The parts a payload splits into: full `budget`-sized slices carrying
/// ascending sequence numbers from `seq0`, ending in one terminal part
/// with whatever remains (the whole payload, if it fits the budget).
pub open spec fn fragments_from(
    device_id: u8,
    session: u8,
    payload: Seq<u8>,
    budget: int,
    seq0: int,
) -> Seq<FragmentPartView>
    decreases payload.len(),
{
    if payload.len() <= budget || budget < 1 {
        seq![FragmentPartView { device_id, session, seq: seq0 as u16, terminal: true, data: payload }]
    } else {
        seq![FragmentPartView {
            device_id,
            session,
            seq: seq0 as u16,
            terminal: false,
            data: payload.take(budget),
        }] + fragments_from(device_id, session, payload.skip(budget), budget, seq0 + 1)
    }
}

/// The full set of parts for one payload, numbered from zero.
pub open spec fn fragments_of(device_id: u8, session: u8, payload: Seq<u8>, budget: int)
    -> Seq<FragmentPartView> {
    fragments_from(device_id, session, payload, budget, 0)
}

/// The splitting half of the reassembler: hands out wrapping session
/// identifiers for the messages it fragments.
pub struct Fragmenter {
    /// The session identifier the next split message will use.
    pub next_session: u8,
}

/// A wrapping increment of a session identifier.
pub open spec fn wrapping_inc(s: u8) -> u8 {
    if s == 255 { 0 } else { (s + 1) as u8 }
}

impl Fragmenter {
    /// A fragmenter whose first split message uses session zero.
    pub fn new() -> (r: Fragmenter)
        ensures r.next_session == 0,
    {
        Fragmenter { next_session: 0 }
    }

    /// Split one message payload into parts if it exceeds the frame
    /// budget; a fitting payload is emitted unchanged as one terminal
    /// part.  Splitting consumes one session identifier.
    pub fn maybe_fragment(&mut self, device_id: u8, payload: &Vec<u8>, budget: usize)
        -> (r: Vec<FragmentPart>)
        requires
            budget >= 1,
            payload@.len() <= budget * 65536,
        ensures
            parts_view(r@) == fragments_of(device_id, old(self).next_session, payload@, budget as int),
            payload@.len() <= budget ==> *final(self) == *old(self),
            payload@.len() > budget
                ==> final(self).next_session == wrapping_inc(old(self).next_session),
    {
        let ghost whole = payload@;
        let session = self.next_session;
        let mut r: Vec<FragmentPart> = Vec::new();
        if payload.len() > budget {
            self.next_session = if self.next_session == 255 { 0 } else { self.next_session + 1 };
        }
        let mut off: usize = 0;
        let mut idx: u16 = 0;
        proof {
            assert(whole.skip(0) =~= whole);
        }
        while payload.len() - off > budget
            invariant
                budget >= 1,
                whole == payload@,
                whole.len() <= budget * 65536,
                off <= whole.len(),
                off == idx * budget,
                r@.len() == idx,
                fragments_of(device_id, session, whole, budget as int) =~= parts_view(r@)
                    + fragments_from(device_id, session, whole.skip(off as int), budget as int, idx as int),
            decreases whole.len() - off,
        {
            let mut data: Vec<u8> = Vec::new();
            let end: usize = off + budget;
            let mut j: usize = off;
            while j < end
                invariant
                    off <= j <= end,
                    end == off + budget,
                    end <= payload@.len(),
                    whole == payload@,
                    data@ == whole.subrange(off as int, j as int),
                decreases end - j,
            {
                data.push(payload[j]);
                proof {
                    assert(data@ =~= whole.subrange(off as int, j + 1));
                }
                j += 1;
            }
            proof {
                assert(data@ =~= whole.skip(off as int).take(budget as int));
                assert((idx + 1) * budget == idx * budget + budget) by (nonlinear_arith);
                assert(idx < 65535) by {
                    assert(idx * budget + budget <= 65536 * budget ==> idx + 1 <= 65536)
                        by (nonlinear_arith);
                }
            }
            r.push(FragmentPart { device_id, session, seq: idx, terminal: false, data });
            proof {
                assert(whole.skip(off as int).skip(budget as int)
                    =~= whole.skip(off + budget));
                assert(parts_view(r@) =~= parts_view(r@.drop_last()).push(r@.last()@));
            }
            off += budget;
            idx += 1;
        }
        // The terminal part carries whatever remains.
        let mut data: Vec<u8> = Vec::new();
        let mut j: usize = off;
        while j < payload.len()
            invariant
                off <= j <= payload@.len(),
                whole == payload@,
                data@ == whole.subrange(off as int, j as int),
            decreases payload@.len() - j,
        {
            data.push(payload[j]);
            proof {
                assert(data@ =~= whole.subrange(off as int, j + 1));
            }
            j += 1;
        }
        proof {
            assert(data@ =~= whole.skip(off as int));
        }
        r.push(FragmentPart { device_id, session, seq: idx, terminal: true, data });
        proof {
            assert(parts_view(r@) =~= parts_view(r@.drop_last()).push(r@.last()@));
            assert(parts_view(r@) =~= fragments_of(device_id, session, whole, budget as int));
        }
        r
    }
}

} // verus!

verus! {

/// An element-for-element copy of a byte buffer.
pub fn clone_bytes(v: &Vec<u8>) -> (r: Vec<u8>)
    ensures r@ == v@,
{
    let mut r: Vec<u8> = Vec::new();
    let mut i: usize = 0;
    while i < v.len()
        invariant
            i <= v@.len(),
            r@ == v@.subrange(0, i as int),
        decreases v@.len() - i,
    {
        r.push(v[i]);
        proof {
            assert(r@ =~= v@.subrange(0, i + 1));
        }
        i += 1;
    }
    proof {
        assert(r@ =~= v@);
    }
    r
}

/// One in-progress reassembly for a single originating device.
#[derive(Debug, Clone)]
pub struct FragmentSession {
    /// Bus address the parts come from.
    pub device_id: u8,
    /// Session identifier the parts were split under.
    pub session: u8,
    /// The sequence index the next part must carry.
    pub next_seq: u32,
    /// Payload bytes accumulated so far, in order.
    pub buffer: Vec<u8>,
    /// When the session started; sessions are evicted by age from here.
    pub started_at: u64,
}

/// The mathematical image of one session.
pub ghost struct FragmentSessionView {
    pub device_id: u8,
    pub session: u8,
    pub next_seq: u32,
    pub buffer: Seq<u8>,
    pub started_at: u64,
}

impl View for FragmentSession {
    type V = FragmentSessionView;

    open spec fn view(&self) -> FragmentSessionView {
        FragmentSessionView {
            device_id: self.device_id,
            session: self.session,
            next_seq: self.next_seq,
            buffer: self.buffer@,
            started_at: self.started_at,
        }
    }
}

/// Whether a session is still within its age limit at time `now_ms`.
pub open spec fn session_live(s: FragmentSessionView, max_age_ms: u64, now_ms: u64) -> bool {
    now_ms <= s.started_at + max_age_ms
}

/// The sessions that survive eviction at time `now_ms`, in order.
pub open spec fn live_sessions(
    ss: Seq<FragmentSessionView>,
    max_age_ms: u64,
    now_ms: u64,
) -> Seq<FragmentSessionView> {
    ss.filter(|s: FragmentSessionView| session_live(s, max_age_ms, now_ms))
}

/// The position of the (first) session for this device, if any.
pub open spec fn find_session(ss: Seq<FragmentSessionView>, device_id: u8) -> Option<int>
    decreases ss.len(),
{
    if ss.len() == 0 {
        None
    } else if ss[0].device_id == device_id {
        Some(0)
    } else {
        match find_session(ss.skip(1), device_id) {
            None => None,
            Some(i) => Some(i + 1),
        }
    }
}


/// A found session lies in range and names the device looked up.
pub proof fn lemma_find_session(ss: Seq<FragmentSessionView>, device_id: u8)
    ensures
        match find_session(ss, device_id) {
            None => true,
            Some(i) => 0 <= i < ss.len() && ss[i].device_id == device_id,
        },
    decreases ss.len(),
{
    if ss.len() > 0 && ss[0].device_id != device_id {
        lemma_find_session(ss.skip(1), device_id);
    }
}

/// What one reassembly step produced.
pub ghost enum StepOutcome {
    /// Part accepted; the message is not complete yet.
    Pending,
    /// The part completed a message: its full payload.
    Emitted(Seq<u8>),
    /// The part violated sequence order; its session was discarded.
    OrderViolation,
}

/// The reassembly step relation: how one part transforms the session list
/// and what it yields.  Aged sessions are evicted first; a part for a
/// device without a session opens one (or, if terminal and first,
/// immediately completes); a matching in-order part extends or completes
/// its session; anything else discards the session as a protocol error.
pub open spec fn defrag_step(
    ss: Seq<FragmentSessionView>,
    max_age_ms: u64,
    now_ms: u64,
    part: FragmentPartView,
) -> (Seq<FragmentSessionView>, StepOutcome) {
    let live = live_sessions(ss, max_age_ms, now_ms);
    match find_session(live, part.device_id) {
        None => {
            if part.seq == 0 {
                if part.terminal {
                    (live, StepOutcome::Emitted(part.data))
                } else {
                    (
                        live.push(FragmentSessionView {
                            device_id: part.device_id,
                            session: part.session,
                            next_seq: 1,
                            buffer: part.data,
                            started_at: now_ms,
                        }),
                        StepOutcome::Pending,
                    )
                }
            } else {
                (live, StepOutcome::OrderViolation)
            }
        },
        Some(i) => {
            let s = live[i];
            if part.session == s.session && part.seq == s.next_seq && s.next_seq <= 0xFFFF {
                if part.terminal {
                    (live.remove(i), StepOutcome::Emitted(s.buffer + part.data))
                } else {
                    (
                        live.update(i, FragmentSessionView {
                            next_seq: (s.next_seq + 1) as u32,
                            buffer: s.buffer + part.data,
                            ..s
                        }),
                        StepOutcome::Pending,
                    )
                }
            } else {
                (live.remove(i), StepOutcome::OrderViolation)
            }
        },
    }
}

/// Reassembles split messages, one session per originating device.
pub struct Reassembler {
    /// The in-progress sessions, oldest first.
    pub sessions: Vec<FragmentSession>,
    /// Sessions older than this many milliseconds are evicted.
    pub max_age_ms: u64,
}

impl View for Reassembler {
    type V = Seq<FragmentSessionView>;

    open spec fn view(&self) -> Seq<FragmentSessionView> {
        self.sessions@.map_values(|s: FragmentSession| s@)
    }
}

impl Reassembler {
    /// A reassembler with no sessions and the given age limit.
    pub fn new(max_age_ms: u64) -> (r: Reassembler)
        ensures
            r@ == Seq::<FragmentSessionView>::empty(),
            r.max_age_ms == max_age_ms,
    {
        let r = Reassembler { sessions: Vec::new(), max_age_ms };
        proof {
            assert(r@ =~= Seq::<FragmentSessionView>::empty());
        }
        r
    }

    /// Evict every session older than the age limit.
    fn evict(&mut self, now_ms: u64)
        ensures
            final(self)@ == live_sessions(old(self)@, old(self).max_age_ms, now_ms),
            final(self).max_age_ms == old(self).max_age_ms,
    {
        let ghost old_views = self@;
        let ghost ma = self.max_age_ms;
        let mut kept: Vec<FragmentSession> = Vec::new();
        let mut i: usize = 0;
        proof {
            assert(old_views.take(0) =~= Seq::<FragmentSessionView>::empty());
            reveal(Seq::filter);
        }
        while i < self.sessions.len()
            invariant
                self@ == old_views,
                self.max_age_ms == ma,
                i <= old_views.len(),
                kept@.map_values(|s: FragmentSession| s@)
                    == live_sessions(old_views.take(i as int), ma, now_ms),
            decreases old_views.len() - i,
        {
            let s = &self.sessions[i];
            let live = if now_ms >= s.started_at {
                now_ms - s.started_at <= self.max_age_ms
            } else {
                true
            };
            let ghost prev = kept@.map_values(|s: FragmentSession| s@);
            if live {
                let copy = FragmentSession {
                    device_id: s.device_id,
                    session: s.session,
                    next_seq: s.next_seq,
                    buffer: clone_bytes(&s.buffer),
                    started_at: s.started_at,
                };
                kept.push(copy);
            }
            proof {
                reveal(Seq::filter);
                assert(old_views.take(i + 1).drop_last() =~= old_views.take(i as int));
                assert(old_views.take(i + 1).last() == old_views[i as int]);
                assert(old_views[i as int] == self.sessions@[i as int]@);
                if live {
                    assert(kept@.map_values(|s: FragmentSession| s@)
                        =~= prev.push(old_views[i as int]));
                } else {
                    assert(!session_live(old_views[i as int], ma, now_ms));
                }
            }
            i += 1;
        }
        proof {
            assert(old_views.take(old_views.len() as int) =~= old_views);
        }
        self.sessions = kept;
    }

    /// Feed one arriving part at time `now_ms`.  Returns the completed
    /// message payload once a terminal part closes its session, an error
    /// for an out-of-order part (whose session is discarded), and nothing
    /// while a message is still accumulating.
    pub fn defragment(&mut self, now_ms: u64, part: FragmentPart)
        -> (r: Result<Option<Vec<u8>>, crate::HookError>)
        ensures
            final(self).max_age_ms == old(self).max_age_ms,
            ({
                let (ss2, out) = defrag_step(old(self)@, old(self).max_age_ms, now_ms, part@);
                &&& final(self)@ == ss2
                &&& (match out {
                    StepOutcome::Pending => r matches Ok(None),
                    StepOutcome::Emitted(p) => r matches Ok(Some(v)) && v@ == p,
                    StepOutcome::OrderViolation => r matches Err(e) && e is Protocol,
                })
            }),
    {
        self.evict(now_ms);
        let ghost live = self@;

        // Find this device's session.
        let mut found: Option<usize> = None;
        let mut i: usize = 0;
        proof {
            assert(live.skip(0) =~= live);
        }
        while found.is_none() && i < self.sessions.len()
            invariant
                self@ == live,
                i <= live.len(),
                found matches Some(x) ==> find_session(live, part@.device_id) == Some(x as int),
                found is None ==> find_session(live, part@.device_id)
                    == (match find_session(live.skip(i as int), part@.device_id) {
                        None => None::<int>,
                        Some(j) => Some(j + i),
                    }),
            decreases live.len() - i,
        {
            proof {
                assert(live.skip(i as int)[0] == live[i as int]);
                assert(live.skip(i as int).skip(1) =~= live.skip(i + 1));
            }
            if self.sessions[i].device_id == part.device_id {
                found = Some(i);
            }
            i += 1;
        }
        proof {
            if found is None {
                assert(live.skip(live.len() as int) =~= Seq::<FragmentSessionView>::empty());
            }
        }

        match found {
            None => {
                if part.seq == 0 {
                    if part.terminal {
                        Ok(Some(part.data))
                    } else {
                        self.sessions.push(FragmentSession {
                            device_id: part.device_id,
                            session: part.session,
                            next_seq: 1,
                            buffer: part.data,
                            started_at: now_ms,
                        });
                        proof {
                            assert(self@ =~= live.push(FragmentSessionView {
                                device_id: part@.device_id,
                                session: part@.session,
                                next_seq: 1,
                                buffer: part@.data,
                                started_at: now_ms,
                            }));
                        }
                        Ok(None)
                    }
                } else {
                    Err(crate::HookError::Protocol)
                }
            },
            Some(idx) => {
                proof {
                    lemma_find_session(live, part@.device_id);
                }
                let mut s = self.sessions.remove(idx);
                if part.session == s.session && (part.seq as u32) == s.next_seq
                    && s.next_seq <= 0xFFFF {
                    if part.terminal {
                        proof {
                            assert(self@ =~= live.remove(idx as int));
                        }
                        let mut buffer = s.buffer;
                        let ghost base = buffer@;
                        buffer.extend_from_slice(part.data.as_slice());
                        proof {
                            assert(buffer@ =~= base + part@.data);
                        }
                        Ok(Some(buffer))
                    } else {
                        s.next_seq = s.next_seq + 1;
                        let ghost base = s.buffer@;
                        s.buffer.extend_from_slice(part.data.as_slice());
                        proof {
                            assert(s.buffer@ =~= base + part@.data);
                        }
                        self.sessions.insert(idx, s);
                        proof {
                            assert(self@ =~= live.update(idx as int, FragmentSessionView {
                                next_seq: (live[idx as int].next_seq + 1) as u32,
                                buffer: live[idx as int].buffer + part@.data,
                                ..live[idx as int]
                            }));
                        }
                        Ok(None)
                    }
                } else {
                    proof {
                        assert(self@ =~= live.remove(idx as int));
                    }
                    Err(crate::HookError::Protocol)
                }
            },
        }
    }
}


/// How many parts a payload splits into.
pub open spec fn n_fragments_from(payload: Seq<u8>, budget: int) -> int
    decreases payload.len(),
{
    if payload.len() <= budget || budget < 1 {
        1
    } else {
        1 + n_fragments_from(payload.skip(budget), budget)
    }
}

/// A payload always splits into at least one part.
proof fn lemma_n_fragments_pos(payload: Seq<u8>, budget: int)
    ensures n_fragments_from(payload, budget) >= 1,
    decreases payload.len(),
{
    if !(payload.len() <= budget || budget < 1) {
        lemma_n_fragments_pos(payload.skip(budget), budget);
    }
}

/// A payload splits into exactly `n_fragments_from` parts.
proof fn lemma_fragments_len(device_id: u8, session: u8, payload: Seq<u8>, budget: int, seq0: int)
    ensures
        fragments_from(device_id, session, payload, budget, seq0).len()
            == n_fragments_from(payload, budget),
    decreases payload.len(),
{
    if !(payload.len() <= budget || budget < 1) {
        lemma_fragments_len(device_id, session, payload.skip(budget), budget, seq0 + 1);
    }
}

/// The result of feeding a series of parts in order: the final session
/// list, every payload emitted along the way, and whether any part was
/// rejected.
pub ghost struct FeedResult {
    pub sessions: Seq<FragmentSessionView>,
    pub emitted: Seq<Seq<u8>>,
    pub any_error: bool,
}

/// Feed a series of parts through the reassembly step relation, in order,
/// all at the same time `now_ms`.
pub open spec fn feed_parts(
    ss: Seq<FragmentSessionView>,
    max_age_ms: u64,
    now_ms: u64,
    parts: Seq<FragmentPartView>,
) -> FeedResult
    decreases parts.len(),
{
    if parts.len() == 0 {
        FeedResult { sessions: ss, emitted: Seq::empty(), any_error: false }
    } else {
        let (ss1, out) = defrag_step(ss, max_age_ms, now_ms, parts[0]);
        let rest = feed_parts(ss1, max_age_ms, now_ms, parts.skip(1));
        FeedResult {
            sessions: rest.sessions,
            emitted: match out {
                StepOutcome::Emitted(p) => seq![p] + rest.emitted,
                _ => rest.emitted,
            },
            any_error: (out is OrderViolation) || rest.any_error,
        }
    }
}

/// A live session survives eviction alone.
proof fn lemma_live_singleton(s: FragmentSessionView, max_age_ms: u64, now_ms: u64)
    requires
        session_live(s, max_age_ms, now_ms),
    ensures
        live_sessions(seq![s], max_age_ms, now_ms) == seq![s],
{
    reveal_with_fuel(Seq::filter, 2);
    assert(seq![s].drop_last() =~= Seq::<FragmentSessionView>::empty());
    assert(Seq::<FragmentSessionView>::empty()
        .filter(|x: FragmentSessionView| session_live(x, max_age_ms, now_ms))
        =~= Seq::<FragmentSessionView>::empty());
    assert(live_sessions(seq![s], max_age_ms, now_ms) =~= seq![s]);
}

/// A session past its age limit does not survive eviction.
proof fn lemma_dead_singleton(s: FragmentSessionView, max_age_ms: u64, now_ms: u64)
    requires
        !session_live(s, max_age_ms, now_ms),
    ensures
        live_sessions(seq![s], max_age_ms, now_ms) == Seq::<FragmentSessionView>::empty(),
{
    reveal_with_fuel(Seq::filter, 2);
    assert(seq![s].drop_last() =~= Seq::<FragmentSessionView>::empty());
    assert(Seq::<FragmentSessionView>::empty()
        .filter(|x: FragmentSessionView| session_live(x, max_age_ms, now_ms))
        =~= Seq::<FragmentSessionView>::empty());
    assert(live_sessions(seq![s], max_age_ms, now_ms)
        =~= Seq::<FragmentSessionView>::empty());
}

/// Nothing survives eviction of an empty session list.
proof fn lemma_live_empty(max_age_ms: u64, now_ms: u64)
    ensures
        live_sessions(Seq::empty(), max_age_ms, now_ms) == Seq::<FragmentSessionView>::empty(),
{
    reveal_with_fuel(Seq::filter, 1);
    assert(live_sessions(Seq::empty(), max_age_ms, now_ms)
        =~= Seq::<FragmentSessionView>::empty());
}

/// Feeding the remaining parts of a message into its live session, in
/// order, completes the message exactly once: the session's buffered
/// bytes followed by the remaining payload, with no session left behind.
proof fn lemma_feed_session(
    s0: FragmentSessionView,
    payload: Seq<u8>,
    budget: int,
    max_age_ms: u64,
    now_ms: u64,
)
    requires
        budget >= 1,
        session_live(s0, max_age_ms, now_ms),
        s0.next_seq >= 1,
        s0.next_seq + n_fragments_from(payload, budget) - 1 <= 0xFFFF,
    ensures
        ({
            let parts = fragments_from(
                s0.device_id, s0.session, payload, budget, s0.next_seq as int);
            let r = feed_parts(seq![s0], max_age_ms, now_ms, parts);
            &&& r.sessions == Seq::<FragmentSessionView>::empty()
            &&& r.emitted == seq![s0.buffer + payload]
            &&& !r.any_error
        }),
    decreases payload.len(),
{
    reveal_with_fuel(feed_parts, 3);
    let parts = fragments_from(s0.device_id, s0.session, payload, budget, s0.next_seq as int);
    lemma_live_singleton(s0, max_age_ms, now_ms);
    assert(find_session(seq![s0], s0.device_id) == Some(0int));
    lemma_n_fragments_pos(payload, budget);
    if payload.len() > budget {
        lemma_n_fragments_pos(payload.skip(budget), budget);
    }
    assert(s0.next_seq <= 0xFFFF);
    if payload.len() <= budget {
        let p0 = parts[0];
        assert(p0.seq == s0.next_seq as u16);
        assert(p0.terminal);
        let (ss1, out) = defrag_step(seq![s0], max_age_ms, now_ms, p0);
        assert(seq![s0].remove(0) =~= Seq::<FragmentSessionView>::empty());
        assert(out == StepOutcome::Emitted(s0.buffer + payload));
        assert(parts.skip(1) =~= Seq::<FragmentPartView>::empty());
        assert(feed_parts(ss1, max_age_ms, now_ms, parts.skip(1)).emitted
            =~= Seq::<Seq<u8>>::empty());
        assert(feed_parts(seq![s0], max_age_ms, now_ms, parts).emitted
            =~= seq![s0.buffer + payload]);
    } else {
        let p0 = parts[0];
        assert(p0.seq == s0.next_seq as u16);
        assert(!p0.terminal);
        assert(p0.data == payload.take(budget));
        let (ss1, out) = defrag_step(seq![s0], max_age_ms, now_ms, p0);
        let s1 = FragmentSessionView {
            next_seq: (s0.next_seq + 1) as u32,
            buffer: s0.buffer + payload.take(budget),
            ..s0
        };
        assert(seq![s0].update(0, s1) =~= seq![s1]);
        assert(ss1 == seq![s1]);
        assert(out is Pending);
        lemma_feed_session(s1, payload.skip(budget), budget, max_age_ms, now_ms);
        assert(parts.skip(1) =~= fragments_from(
            s0.device_id, s0.session, payload.skip(budget), budget, s1.next_seq as int));
        assert(s1.buffer + payload.skip(budget) =~= s0.buffer + payload);
        assert(feed_parts(seq![s0], max_age_ms, now_ms, parts).emitted
            =~= seq![s0.buffer + payload]);
    }
}

/// Fragmentation round-trip: feeding every part that `maybe_fragment`
/// produced for a payload, in order, into a reassembler with no session
/// for that device emits exactly that payload, exactly once, with no
/// session left behind and no part rejected.
pub proof fn lemma_fragment_round_trip(
    device_id: u8,
    session: u8,
    payload: Seq<u8>,
    budget: int,
    max_age_ms: u64,
    now_ms: u64,
)
    requires
        budget >= 1,
        n_fragments_from(payload, budget) <= 0x10000,
    ensures
        ({
            let parts = fragments_of(device_id, session, payload, budget);
            let r = feed_parts(Seq::empty(), max_age_ms, now_ms, parts);
            &&& r.sessions == Seq::<FragmentSessionView>::empty()
            &&& r.emitted == seq![payload]
            &&& !r.any_error
        }),
{
    reveal_with_fuel(feed_parts, 3);
    let parts = fragments_of(device_id, session, payload, budget);
    lemma_live_empty(max_age_ms, now_ms);
    assert(find_session(Seq::empty(), device_id) is None);
    lemma_n_fragments_pos(payload, budget);
    if payload.len() > budget {
        lemma_n_fragments_pos(payload.skip(budget), budget);
    }
    if payload.len() <= budget {
        let p0 = parts[0];
        assert(p0.seq == 0 && p0.terminal && p0.data == payload);
        let (ss1, out) = defrag_step(Seq::empty(), max_age_ms, now_ms, p0);
        assert(out == StepOutcome::Emitted(payload));
        assert(parts.skip(1) =~= Seq::<FragmentPartView>::empty());
        assert(feed_parts(Seq::empty(), max_age_ms, now_ms, parts).emitted =~= seq![payload]);
    } else {
        let p0 = parts[0];
        assert(p0.seq == 0 && !p0.terminal && p0.data == payload.take(budget));
        let (ss1, out) = defrag_step(Seq::empty(), max_age_ms, now_ms, p0);
        let s1 = FragmentSessionView {
            device_id,
            session,
            next_seq: 1,
            buffer: payload.take(budget),
            started_at: now_ms,
        };
        assert(Seq::<FragmentSessionView>::empty().push(s1) =~= seq![s1]);
        assert(ss1 == seq![s1]);
        lemma_feed_session(s1, payload.skip(budget), budget, max_age_ms, now_ms);
        assert(parts.skip(1) =~= fragments_from(
            device_id, session, payload.skip(budget), budget, 1));
        assert(s1.buffer + payload.skip(budget) =~= payload);
        assert(feed_parts(Seq::empty(), max_age_ms, now_ms, parts).emitted =~= seq![payload]);
    }
}

/// Feeding a strict prefix of a message's remaining parts into its live
/// session emits nothing and leaves the one session in place, started
/// where it started.
proof fn lemma_feed_session_prefix(
    s0: FragmentSessionView,
    payload: Seq<u8>,
    budget: int,
    max_age_ms: u64,
    now_ms: u64,
    k: int,
)
    requires
        budget >= 1,
        session_live(s0, max_age_ms, now_ms),
        s0.next_seq >= 1,
        s0.next_seq + n_fragments_from(payload, budget) - 1 <= 0xFFFF,
        0 <= k < n_fragments_from(payload, budget),
    ensures
        ({
            let parts = fragments_from(
                s0.device_id, s0.session, payload, budget, s0.next_seq as int).take(k);
            let r = feed_parts(seq![s0], max_age_ms, now_ms, parts);
            &&& r.sessions.len() == 1
            &&& r.sessions[0].device_id == s0.device_id
            &&& r.sessions[0].started_at == s0.started_at
            &&& r.emitted == Seq::<Seq<u8>>::empty()
            &&& !r.any_error
        }),
    decreases payload.len(),
{
    reveal_with_fuel(feed_parts, 3);
    let whole = fragments_from(s0.device_id, s0.session, payload, budget, s0.next_seq as int);
    let parts = whole.take(k);
    lemma_fragments_len(s0.device_id, s0.session, payload, budget, s0.next_seq as int);
    lemma_n_fragments_pos(payload, budget);
    if payload.len() > budget {
        lemma_n_fragments_pos(payload.skip(budget), budget);
    }
    assert(s0.next_seq <= 0xFFFF);
    if k == 0 {
        assert(parts =~= Seq::<FragmentPartView>::empty());
    } else {
        assert(payload.len() > budget);
        lemma_live_singleton(s0, max_age_ms, now_ms);
        assert(find_session(seq![s0], s0.device_id) == Some(0int));
        let p0 = whole[0];
        assert(p0.seq == s0.next_seq as u16 && !p0.terminal && p0.data == payload.take(budget));
        assert(parts[0] == p0);
        let (ss1, out) = defrag_step(seq![s0], max_age_ms, now_ms, p0);
        let s1 = FragmentSessionView {
            next_seq: (s0.next_seq + 1) as u32,
            buffer: s0.buffer + payload.take(budget),
            ..s0
        };
        assert(seq![s0].update(0, s1) =~= seq![s1]);
        assert(ss1 == seq![s1]);
        assert(out is Pending);
        lemma_feed_session_prefix(s1, payload.skip(budget), budget, max_age_ms, now_ms, k - 1);
        assert(parts.skip(1) =~= fragments_from(
            s1.device_id, s1.session, payload.skip(budget), budget, s1.next_seq as int)
            .take(k - 1));
    }
}

/// A strict prefix of a split message (the terminal part missing) yields
/// no message: the parts are accepted, nothing is emitted, and exactly
/// one session remains, started at the time the parts arrived.
pub proof fn lemma_fragment_prefix_no_message(
    device_id: u8,
    session: u8,
    payload: Seq<u8>,
    budget: int,
    max_age_ms: u64,
    now_ms: u64,
    k: int,
)
    requires
        budget >= 1,
        payload.len() > budget,
        n_fragments_from(payload, budget) <= 0x10000,
        1 <= k < n_fragments_from(payload, budget),
    ensures
        ({
            let parts = fragments_of(device_id, session, payload, budget).take(k);
            let r = feed_parts(Seq::empty(), max_age_ms, now_ms, parts);
            &&& r.sessions.len() == 1
            &&& r.sessions[0].device_id == device_id
            &&& r.sessions[0].started_at == now_ms
            &&& r.emitted == Seq::<Seq<u8>>::empty()
            &&& !r.any_error
        }),
{
    reveal_with_fuel(feed_parts, 3);
    let whole = fragments_of(device_id, session, payload, budget);
    let parts = whole.take(k);
    lemma_fragments_len(device_id, session, payload, budget, 0);
    lemma_n_fragments_pos(payload, budget);
    lemma_n_fragments_pos(payload.skip(budget), budget);
    lemma_live_empty(max_age_ms, now_ms);
    assert(find_session(Seq::empty(), device_id) is None);
    let p0 = whole[0];
    assert(p0.seq == 0 && !p0.terminal && p0.data == payload.take(budget));
    assert(parts[0] == p0);
    let (ss1, out) = defrag_step(Seq::empty(), max_age_ms, now_ms, p0);
    let s1 = FragmentSessionView {
        device_id,
        session,
        next_seq: 1,
        buffer: payload.take(budget),
        started_at: now_ms,
    };
    assert(Seq::<FragmentSessionView>::empty().push(s1) =~= seq![s1]);
    assert(ss1 == seq![s1]);
    lemma_feed_session_prefix(s1, payload.skip(budget), budget, max_age_ms, now_ms, k - 1);
    assert(parts.skip(1) =~= fragments_from(
        device_id, session, payload.skip(budget), budget, 1).take(k - 1));
}

/// Once a session's age limit has elapsed, it is evicted before any
/// later part is processed: a part continuing the message finds no
/// session, and, not being a first part, is rejected — the message can
/// never complete.
pub proof fn lemma_aged_session_gone(
    s0: FragmentSessionView,
    part: FragmentPartView,
    max_age_ms: u64,
    later_ms: u64,
)
    requires
        later_ms > s0.started_at + max_age_ms,
        part.seq != 0,
    ensures
        defrag_step(seq![s0], max_age_ms, later_ms, part).0
            == Seq::<FragmentSessionView>::empty(),
        defrag_step(seq![s0], max_age_ms, later_ms, part).1 is OrderViolation,
{
    lemma_dead_singleton(s0, max_age_ms, later_ms);
    assert(find_session(Seq::empty(), part.device_id) is None);
}


/// The byte image of one part on the wire: originating device, session,
/// little-endian sequence index, the terminal flag, then the data.
pub open spec fn part_bytes(p: FragmentPartView) -> Seq<u8> {
    seq![
        p.device_id,
        p.session,
        (p.seq % 256) as u8,
        ((p.seq / 256) % 256) as u8,
        if p.terminal { 1u8 } else { 0u8 },
    ] + p.data
}

/// Encode one part for a frame payload.
pub fn encode_part(p: &FragmentPart) -> (r: Vec<u8>)
    ensures
        r@ == part_bytes(p@),
{
    let mut out: Vec<u8> = Vec::new();
    out.push(p.device_id);
    out.push(p.session);
    out.push((p.seq % 256) as u8);
    out.push((p.seq / 256) as u8);
    out.push(if p.terminal { 1u8 } else { 0u8 });
    out.extend_from_slice(p.data.as_slice());
    proof {
        assert(out@ =~= part_bytes(p@));
    }
    out
}

/// Decode one part from a frame payload: the five header bytes, then
/// the data.  A shorter payload, or a flag byte that is neither zero
/// nor one, is no part.
pub fn decode_part(buf: &Vec<u8>) -> (r: Option<FragmentPart>)
    ensures
        r matches Some(p) ==> buf@ == part_bytes(p@),
        r is None ==> (buf@.len() < 5 || (buf@[4] != 0 && buf@[4] != 1)),
{
    if buf.len() < 5 {
        return None;
    }
    let terminal = if buf[4] == 1 {
        true
    } else if buf[4] == 0 {
        false
    } else {
        return None;
    };
    let seq: u16 = (buf[2] as u16) + 256 * (buf[3] as u16);
    let mut data: Vec<u8> = Vec::new();
    let mut i: usize = 5;
    while i < buf.len()
        invariant
            5 <= i <= buf@.len(),
            data@ == buf@.subrange(5, i as int),
        decreases buf@.len() - i,
    {
        data.push(buf[i]);
        proof {
            assert(data@ =~= buf@.subrange(5, i + 1));
        }
        i += 1;
    }
    let p = FragmentPart { device_id: buf[0], session: buf[1], seq, terminal, data };
    proof {
        assert(buf@ =~= part_bytes(p@));
    }
    Some(p)
}

} // verus!
