//! Request/reply correlation over one domain's outbound channel.
//!
//! A domain owns a FIFO outbound queue and a pending-replies table.  A
//! correlated request derives the complementary identifier its reply must
//! carry, registers a single-use token under it before the request is
//! queued (so no reply can race the registration), and then waits.  The
//! waiting itself happens outside the library; the caller reports the
//! outcome of each attempt, and `on_timeout` decides between a retry —
//! with a fresh token — and final failure.

use vstd::prelude::*;

use crate::HookError;
use crate::msg::DEVICE_ID_BROADCAST;
use crate::msg::TaggedMessage;
use crate::msg::complement_id_of;
use crate::msg::message_valid;
use crate::msg::spec_complement_u32;

verus! {

/// One waiting reply slot: a single-use token registered under the packed
/// complementary identifier the reply will carry.
#[derive(Debug, Clone, Copy, PartialEq, Eq, Structural)]
pub struct PendingEntry {
    pub id: u32,
    pub token: u128,
}

/// One logical communication channel: its display name, its FIFO outbound
/// queue, and its pending-replies table.
#[derive(Debug)]
pub struct Domain {
    /// The channel's name, e.g. one per transport.
    pub name: String,
    /// Messages queued to be carried out, oldest first.
    pub outbound: Vec<TaggedMessage>,
    /// The registered reply slots.
    pub pending: Vec<PendingEntry>,
}

/// The pending entries that do not wait under this identifier.
pub open spec fn pending_without(pending: Seq<PendingEntry>, id: u32) -> Seq<PendingEntry> {
    pending.filter(|e: PendingEntry| e.id != id)
}

/// The tokens waiting under this identifier, in registration order.
pub open spec fn tokens_for(pending: Seq<PendingEntry>, id: u32) -> Seq<u128> {
    pending.filter(|e: PendingEntry| e.id == id).map_values(|e: PendingEntry| e.token)
}

/// The pending pairs with one slot taken out.
pub open spec fn pending_view_without(view: Seq<(u32, u128)>, id: u32, token: u128)
    -> Seq<(u32, u128)> {
    view.filter(|p: (u32, u128)| !(p.0 == id && p.1 == token))
}

impl Domain {
    /// The pending table as a sequence of `(identifier, token)` pairs.
    pub open spec fn pending_view(&self) -> Seq<(u32, u128)> {
        self.pending@.map_values(|e: PendingEntry| (e.id, e.token))
    }

    /// A fresh domain with nothing queued and nothing pending.
    pub fn new(name: String) -> (r: Domain)
        ensures
            r.name == name,
            r.outbound@ == Seq::<TaggedMessage>::empty(),
            r.pending@ == Seq::<PendingEntry>::empty(),
            r.pending_view() == Seq::<(u32, u128)>::empty(),
    {
        let r = Domain { name, outbound: Vec::new(), pending: Vec::new() };
        proof {
            assert(r.pending_view() =~= Seq::<(u32, u128)>::empty());
        }
        r
    }

    /// Queue a message for sending, after validating its structural
    /// constraints; an invalid message is rejected and nothing changes.
    pub fn send(&mut self, msg: TaggedMessage) -> (r: Result<(), HookError>)
        ensures
            message_valid(msg.msg) ==> r is Ok
                && final(self).outbound@ == old(self).outbound@.push(msg),
            !message_valid(msg.msg) ==> (r matches Err(e) && e is InvalidMessage)
                && final(self).outbound@ == old(self).outbound@,
            final(self).pending@ == old(self).pending@,
            final(self).name == old(self).name,
    {
        if crate::msg::validate_message(&msg.msg) {
            self.outbound.push(msg);
            Ok(())
        } else {
            Err(HookError::InvalidMessage)
        }
    }

    /// Take the oldest queued message, if any: the transport loop drains
    /// the queue in FIFO order.
    pub fn pop_outbound(&mut self) -> (r: Option<TaggedMessage>)
        ensures
            old(self).outbound@.len() == 0 ==> r is None
                && final(self).outbound@ == old(self).outbound@,
            old(self).outbound@.len() > 0 ==> (r matches Some(m)
                && m == old(self).outbound@[0]
                && final(self).outbound@ == old(self).outbound@.skip(1)),
            final(self).pending@ == old(self).pending@,
            final(self).name == old(self).name,
    {
        if self.outbound.len() == 0 {
            None
        } else {
            let m = self.outbound.remove(0);
            proof {
                assert(self.outbound@ =~= old(self).outbound@.skip(1));
            }
            Some(m)
        }
    }

    /// Remove one registered slot, if present: the waiter gave up.
    pub fn cancel(&mut self, id: u32, token: u128)
        ensures
            final(self).pending_view() == pending_view_without(old(self).pending_view(), id, token),
            final(self).outbound@ == old(self).outbound@,
            final(self).name == old(self).name,
    {
        let ghost old_pending = self.pending@;
        let mut kept: Vec<PendingEntry> = Vec::new();
        let mut i: usize = 0;
        proof {
            assert(old_pending.take(0) =~= Seq::<PendingEntry>::empty());
            reveal(Seq::filter);
            assert(kept@.map_values(|e: PendingEntry| (e.id, e.token))
                =~= pending_view_without(
                    old_pending.take(0).map_values(|e: PendingEntry| (e.id, e.token)),
                    id, token));
        }
        while i < self.pending.len()
            invariant
                self.pending@ == old_pending,
                i <= old_pending.len(),
                kept@.map_values(|e: PendingEntry| (e.id, e.token))
                    == pending_view_without(
                        old_pending.take(i as int).map_values(|e: PendingEntry| (e.id, e.token)),
                        id, token),
            decreases old_pending.len() - i,
        {
            let e = self.pending[i];
            let ghost prev = kept@.map_values(|x: PendingEntry| (x.id, x.token));
            if !(e.id == id && e.token == token) {
                kept.push(e);
            }
            proof {
                reveal(Seq::filter);
                let taken = old_pending.take(i + 1)
                    .map_values(|x: PendingEntry| (x.id, x.token));
                assert(taken.drop_last() =~= old_pending.take(i as int)
                    .map_values(|x: PendingEntry| (x.id, x.token)));
                assert(taken.last() == (e.id, e.token));
                if !(e.id == id && e.token == token) {
                    assert(kept@.map_values(|x: PendingEntry| (x.id, x.token))
                        =~= prev.push((e.id, e.token)));
                }
            }
            i += 1;
        }
        proof {
            assert(old_pending.take(old_pending.len() as int) =~= old_pending);
        }
        self.pending = kept;
    }

    /// Remove and return every token waiting under this identifier, in
    /// registration order: an arriving reply is delivered to all of them.
    pub fn take_waiters(&mut self, id: u32) -> (r: Vec<u128>)
        ensures
            r@ == tokens_for(old(self).pending@, id),
            final(self).pending@ == pending_without(old(self).pending@, id),
            final(self).outbound@ == old(self).outbound@,
            final(self).name == old(self).name,
    {
        let ghost old_pending = self.pending@;
        let mut kept: Vec<PendingEntry> = Vec::new();
        let mut taken: Vec<u128> = Vec::new();
        let mut i: usize = 0;
        proof {
            assert(old_pending.take(0) =~= Seq::<PendingEntry>::empty());
            reveal(Seq::filter);
            assert(kept@ =~= old_pending.take(0).filter(|e: PendingEntry| e.id != id));
            assert(taken@ =~= old_pending.take(0).filter(|e: PendingEntry| e.id == id)
                .map_values(|e: PendingEntry| e.token));
        }
        while i < self.pending.len()
            invariant
                self.pending@ == old_pending,
                i <= old_pending.len(),
                kept@ == old_pending.take(i as int).filter(|e: PendingEntry| e.id != id),
                taken@ == old_pending.take(i as int).filter(|e: PendingEntry| e.id == id)
                    .map_values(|e: PendingEntry| e.token),
            decreases old_pending.len() - i,
        {
            let e = self.pending[i];
            let ghost prev_kept = kept@;
            let ghost prev_taken = taken@;
            if e.id == id {
                taken.push(e.token);
            } else {
                kept.push(e);
            }
            proof {
                reveal(Seq::filter);
                assert(old_pending.take(i + 1).drop_last() =~= old_pending.take(i as int));
                assert(old_pending.take(i + 1).last() == e);
                if e.id == id {
                    assert(taken@ =~= old_pending.take(i + 1)
                        .filter(|x: PendingEntry| x.id == id)
                        .map_values(|x: PendingEntry| x.token));
                } else {
                    assert(taken@ =~= old_pending.take(i + 1)
                        .filter(|x: PendingEntry| x.id == id)
                        .map_values(|x: PendingEntry| x.token));
                }
            }
            i += 1;
        }
        proof {
            assert(old_pending.take(old_pending.len() as int) =~= old_pending);
        }
        self.pending = kept;
        taken
    }
}

/// A correlated request in flight: what was sent, the identifier its
/// reply must carry, the token registered for this attempt, and the
/// retry budget.
pub struct RequestTicket {
    /// The request message; the caller retransmits the same message on
    /// each retry.
    pub msg: Ghost<TaggedMessage>,
    /// The packed complementary identifier the reply must carry.
    pub complement: u32,
    /// The single-use token registered for the current attempt.
    pub token: u128,
    /// How long each attempt may wait, in milliseconds.
    pub timeout_ms: u64,
    /// How many retries remain after the current attempt.
    pub retries_left: u32,
    /// How many send attempts have been made so far.
    pub attempts: u32,
}

/// Relies on `uuid::Uuid::new_v4` for a fresh random correlation token.
/// Nothing is assumed of the value: the pending table tolerates any.
#[verifier::external_body]
fn fresh_token() -> u128 {
    uuid::Uuid::new_v4().as_u128()
}

/// Start a correlated request on a domain: validate the message, derive
/// the complementary identifier, register a fresh token under it, and
/// queue the message — the slot exists before the request is carried out,
/// so no reply can arrive unregistered.
pub fn begin_request(dom: &mut Domain, msg: TaggedMessage, timeout_ms: u64, retries: u32)
    -> (r: Result<RequestTicket, HookError>)
    ensures
        !message_valid(msg.msg) ==> (r matches Err(e) && e is InvalidMessage)
            && final(dom).outbound@ == old(dom).outbound@
            && final(dom).pending_view() == old(dom).pending_view(),
        message_valid(msg.msg) ==> (r matches Ok(t)
            && t.msg@ == msg
            && t.complement == spec_complement_u32(msg.device_id, msg.msg)
            && t.timeout_ms == timeout_ms
            && t.retries_left == retries
            && t.attempts == 1
            && final(dom).outbound@ == old(dom).outbound@.push(msg)
            && final(dom).pending_view() == old(dom).pending_view().push((t.complement, t.token))),
        final(dom).name == old(dom).name,
{
    if !crate::msg::validate_message(&msg.msg) {
        return Err(HookError::InvalidMessage);
    }
    let complement = complement_id_of(msg.device_id, &msg.msg);
    let token = fresh_token();
    let ghost old_pending = dom.pending@;
    dom.pending.push(PendingEntry { id: complement, token });
    proof {
        assert(dom.pending_view() =~= old(dom).pending_view().push((complement, token)));
    }
    let ghost gmsg = msg;
    let sent = dom.send(msg);
    proof {
        assert(sent is Ok);
    }
    Ok(RequestTicket {
        msg: Ghost(gmsg),
        complement,
        token,
        timeout_ms,
        retries_left: retries,
        attempts: 1,
    })
}

/// One attempt timed out: the slot is removed, and the request is retried
/// under a fresh token while retries remain; once they are exhausted the
/// request fails with a timeout, distinctly from other failures.
pub fn on_timeout(dom: &mut Domain, ticket: RequestTicket, msg: TaggedMessage)
    -> (r: Result<RequestTicket, HookError>)
    requires
        ticket.attempts < u32::MAX,
        msg == ticket.msg@,
        message_valid(msg.msg),
        ticket.complement == spec_complement_u32(msg.device_id, msg.msg),
    ensures
        ({
            let cleared = pending_view_without(
                old(dom).pending_view(), ticket.complement, ticket.token);
            &&& (ticket.retries_left == 0 ==> (r matches Err(e) && e is Timeout)
                && final(dom).outbound@ == old(dom).outbound@
                && final(dom).pending_view() == cleared)
            &&& (ticket.retries_left > 0 ==> (r matches Ok(t)
                && t.msg@ == ticket.msg@
                && t.complement == ticket.complement
                && t.timeout_ms == ticket.timeout_ms
                && t.attempts == ticket.attempts + 1
                && t.retries_left == ticket.retries_left - 1
                && final(dom).outbound@ == old(dom).outbound@.push(msg)
                && final(dom).pending_view() == cleared.push((t.complement, t.token))))
        }),
        final(dom).name == old(dom).name,
{
    dom.cancel(ticket.complement, ticket.token);
    if ticket.retries_left == 0 {
        return Err(HookError::Timeout);
    }
    let token = fresh_token();
    let ghost cleared = dom.pending_view();
    dom.pending.push(PendingEntry { id: ticket.complement, token });
    proof {
        assert(dom.pending_view() =~= cleared.push((ticket.complement, token)));
    }
    let sent = dom.send(msg);
    proof {
        assert(sent is Ok);
    }
    Ok(RequestTicket {
        msg: ticket.msg,
        complement: ticket.complement,
        token,
        timeout_ms: ticket.timeout_ms,
        retries_left: ticket.retries_left - 1,
        attempts: ticket.attempts + 1,
    })
}

/// The attempt count at which a request with this many remaining retries
/// finally fails, counting from `attempts` attempts already made, when no
/// reply ever arrives.
pub open spec fn attempts_at_failure(attempts: int, retries_left: int) -> int
    decreases retries_left when retries_left >= 0
{
    if retries_left <= 0 {
        attempts
    } else {
        attempts_at_failure(attempts + 1, retries_left - 1)
    }
}

/// Correlation retry count: a request that never receives a reply makes
/// exactly `retries + 1` send attempts before failing with a timeout.
/// `begin_request` makes the first send with one attempt recorded; each
/// `on_timeout` with retries remaining queues exactly one more send and
/// records one more attempt; failure comes only when no retries remain.
pub proof fn lemma_retry_send_count(retries: int)
    requires
        retries >= 0,
    ensures
        attempts_at_failure(1, retries) == retries + 1,
{
    lemma_attempts_at_failure(1, retries);
}

/// The failure attempt count is the attempts made plus the retries left.
proof fn lemma_attempts_at_failure(attempts: int, retries_left: int)
    requires
        retries_left >= 0,
    ensures
        attempts_at_failure(attempts, retries_left) == attempts + retries_left,
    decreases retries_left,
{
    if retries_left > 0 {
        lemma_attempts_at_failure(attempts + 1, retries_left - 1);
    }
}

/// Broadcast a message to every device on the domain.
pub fn send_broadcast(dom: &mut Domain, msg: crate::msg::DeviceMessage)
    -> (r: Result<(), HookError>)
    ensures
        message_valid(msg) ==> r is Ok
            && final(dom).outbound@ == old(dom).outbound@
                .push(TaggedMessage { device_id: DEVICE_ID_BROADCAST, msg }),
        !message_valid(msg) ==> (r matches Err(e) && e is InvalidMessage)
            && final(dom).outbound@ == old(dom).outbound@,
        final(dom).pending@ == old(dom).pending@,
        final(dom).name == old(dom).name,
{
    dom.send(TaggedMessage::new(DEVICE_ID_BROADCAST, msg))
}

} // verus!
