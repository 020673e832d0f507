//! The message-transport correlator: assigns sequential call identifiers,
//! keeps the queue of commands to send, and enforces the
//! single-in-flight-send discipline — at most one framed command is being
//! written at a time, so wire order equals submission order.
//!
//! The socket itself lives outside the crate.  The driver asks
//! [`Connection::dequeue_to_send`] for the next framed command, reports the
//! write with [`Connection::on_send_started`] and the flush with
//! [`Connection::on_flush_complete`], and decodes inbound text with
//! [`crate::json::decode_frame`].

use vstd::prelude::*;

use crate::error::CdpError;
use crate::types::{CallId, MethodCall};

verus! {

/// The identifier the connection assigns after `id`: the successor, wrapping
/// on overflow.
pub open spec fn wrap_succ(id: usize) -> usize {
    if id == usize::MAX {
        0
    } else {
        (id + 1) as usize
    }
}

/// The state of the send side of one connection.
#[derive(Debug)]
pub struct Connection {
    /// Commands submitted and not yet handed to the transport, in order.
    pub pending_commands: Vec<MethodCall>,
    /// How many of `pending_commands` have already been handed out.
    pub sent: usize,
    /// The identifier the next submitted command gets.
    pub next_id: usize,
    /// A handed-out command is being written and not yet flushed.
    pub needs_flush: bool,
    /// The command handed to the transport whose write has not started.
    pub pending_flush: Option<MethodCall>,
}

impl Connection {
    /// The commands still queued to send, oldest first.
    pub open spec fn queued(&self) -> Seq<MethodCall> {
        self.pending_commands@.skip(self.sent as int)
    }

    /// The queue position is inside the queue.
    pub open spec fn wf(&self) -> bool {
        self.sent <= self.pending_commands@.len()
    }

    /// A fresh connection: no queue, identifiers start at zero.
    pub fn new() -> (r: Connection)
        ensures
            r.wf(),
            r.queued().len() == 0,
            r.next_id == 0,
            !r.needs_flush,
            r.pending_flush is None,
    {
        let r = Connection {
            pending_commands: Vec::new(),
            sent: 0,
            next_id: 0,
            needs_flush: false,
            pending_flush: None,
        };
        proof {
            assert(r.queued() =~= Seq::<MethodCall>::empty());
        }
        r
    }

    /// Queue in a command to send and return its identifier: the current
    /// `next_id`, after which the counter moves to its wrapping successor —
    /// so identifiers issued on one connection strictly increase until they
    /// wrap.
    pub fn submit_command(
        &mut self,
        method: String,
        session_id: Option<String>,
        params: String,
    ) -> (r: CallId)
        requires
            old(self).wf(),
        ensures
            final(self).wf(),
            r == CallId(old(self).next_id),
            final(self).next_id == wrap_succ(old(self).next_id),
            final(self).queued() == old(self).queued().push(
                MethodCall { id: r, method, session_id, params },
            ),
            final(self).sent == old(self).sent,
            final(self).needs_flush == old(self).needs_flush,
            final(self).pending_flush == old(self).pending_flush,
    {
        let id = CallId(self.next_id);
        self.next_id = if self.next_id == usize::MAX {
            0
        } else {
            self.next_id + 1
        };
        self.pending_commands.push(MethodCall { id, method, session_id, params });
        proof {
            assert(self.queued() =~= old(self).queued().push(
                MethodCall { id, method, session_id, params },
            ));
        }
        id
    }

    /// Whether the transport is free for the next command: nothing is being
    /// written or flushed.
    pub open spec fn can_send(&self) -> bool {
        !self.needs_flush && self.pending_flush is None
    }

    /// Hands the next queued command to the transport, framed for the wire.
    /// Returns `None` while a previous write is still in flight or the queue
    /// is empty; returns an encode error exactly when the command's method
    /// or session identifier cannot be framed verbatim — such a command is
    /// dropped from the queue and the stream surfaces the error.
    pub fn dequeue_to_send(&mut self) -> (r: Result<Option<String>, CdpError>)
        requires
            old(self).wf(),
        ensures
            final(self).wf(),
            final(self).next_id == old(self).next_id,
            final(self).needs_flush == old(self).needs_flush,
            (!old(self).can_send() || old(self).queued().len() == 0) ==> {
                &&& r == Ok::<Option<String>, CdpError>(None)
                &&& *final(self) == *old(self)
            },
            (old(self).can_send() && old(self).queued().len() > 0) ==> {
                let call = old(self).queued()[0];
                &&& final(self).queued() == old(self).queued().skip(1)
                &&& match r {
                    Ok(Some(text)) => {
                        &&& text@ == crate::json::spec_encode_call(
                            call.id.0 as nat,
                            call.method@,
                            match call.session_id {
                                Some(sid) => Some(sid@),
                                None => None,
                            },
                            call.params@,
                        )
                        &&& final(self).pending_flush == Some(call)
                    },
                    Ok(None) => false,
                    Err(e) => {
                        &&& e is Encode
                        &&& final(self).pending_flush is None
                    },
                }
            },
    {
        if self.needs_flush || self.pending_flush.is_some() {
            return Ok(None);
        }
        if self.sent >= self.pending_commands.len() {
            return Ok(None);
        }
        let call = MethodCall {
            id: self.pending_commands[self.sent].id,
            method: self.pending_commands[self.sent].method.clone(),
            session_id: match &self.pending_commands[self.sent].session_id {
                Some(s) => Some(s.clone()),
                None => None,
            },
            params: self.pending_commands[self.sent].params.clone(),
        };
        self.sent = self.sent + 1;
        proof {
            assert(self.queued() =~= old(self).queued().skip(1));
            assert(call == old(self).queued()[0]);
        }
        match crate::json::encode_method_call(&call) {
            Some(text) => {
                self.pending_flush = Some(call);
                Ok(Some(text))
            },
            None => Err(CdpError::Encode),
        }
    }

    /// The transport accepted the write of the handed-out command; a flush
    /// is now owed before the next send.
    pub fn on_send_started(&mut self)
        requires
            old(self).wf(),
        ensures
            final(self).wf(),
            final(self).pending_flush is None,
            final(self).needs_flush == (old(self).pending_flush is Some || old(self).needs_flush),
            final(self).pending_commands == old(self).pending_commands,
            final(self).sent == old(self).sent,
            final(self).next_id == old(self).next_id,
    {
        if self.pending_flush.is_some() {
            self.pending_flush = None;
            self.needs_flush = true;
        }
    }

    /// The transport finished flushing: the connection may send again.
    pub fn on_flush_complete(&mut self)
        requires
            old(self).wf(),
        ensures
            final(self).wf(),
            !final(self).needs_flush,
            final(self).pending_flush == old(self).pending_flush,
            final(self).pending_commands == old(self).pending_commands,
            final(self).sent == old(self).sent,
            final(self).next_id == old(self).next_id,
    {
        self.needs_flush = false;
    }
}

/// The identifier issued by the `k`-th submission on a connection whose
/// counter starts at `start`.
pub open spec fn nth_call_id(start: usize, k: nat) -> nat
    decreases k,
{
    if k == 0 {
        start as nat
    } else {
        wrap_succ_nat(nth_call_id(start, (k - 1) as nat))
    }
}

/// The wrapping successor, over mathematical integers.
pub open spec fn wrap_succ_nat(id: nat) -> nat {
    if id == usize::MAX {
        0
    } else {
        id + 1
    }
}

/// The identifiers issued on one connection count up from the start value,
/// wrapping past the largest: the `k`-th is `(start + k)` reduced by the
/// counter's modulus.
pub proof fn lemma_nth_call_id_mod(start: usize, k: nat)
    ensures
        nth_call_id(start, k) == (start + k) % (usize::MAX + 1),
    decreases k,
{
    let m = usize::MAX + 1int;
    if k == 0 {
        assert((start + 0) % m == start) by {
            vstd::arithmetic::div_mod::lemma_small_mod(start as nat, m as nat);
        };
    } else {
        lemma_nth_call_id_mod(start, (k - 1) as nat);
        let prev = nth_call_id(start, (k - 1) as nat);
        assert(prev == (start + k - 1) % m);
        vstd::arithmetic::div_mod::lemma_mod_bound(start + k - 1, m);
        if prev == usize::MAX {
            assert((start + k) % m == 0) by {
                vstd::arithmetic::div_mod::lemma_add_mod_noop(start + k - 1, 1, m);
                vstd::arithmetic::div_mod::lemma_small_mod(1nat, m as nat);
                assert((start + k - 1) % m + 1int % m == m);
                vstd::arithmetic::div_mod::lemma_mod_self_0(m);
                vstd::arithmetic::div_mod::lemma_mod_twice(start + k, m);
            };
        } else {
            assert((start + k) % m == prev + 1) by {
                vstd::arithmetic::div_mod::lemma_add_mod_noop(start + k - 1, 1, m);
                vstd::arithmetic::div_mod::lemma_small_mod(1nat, m as nat);
                vstd::arithmetic::div_mod::lemma_small_mod((prev + 1) as nat, m as nat);
                vstd::arithmetic::div_mod::lemma_mod_twice(start + k, m);
            };
        }
    }
}

/// Law: for all call identifiers issued on one connection, identifiers
/// strictly increase mod wraparound — the `k`-th issued identifier is
/// `(start + k)` mod the counter modulus — and no identifier repeats within
/// any window of submissions shorter than the modulus, so an identifier is
/// never reused while a request issued up to `usize::MAX` submissions
/// earlier is still outstanding.
pub proof fn lemma_call_ids_never_reused(start: usize, i: nat, j: nat)
    requires
        i < j,
        j - i <= usize::MAX,
    ensures
        nth_call_id(start, i) != nth_call_id(start, j),
{
    let m = usize::MAX + 1int;
    lemma_nth_call_id_mod(start, i);
    lemma_nth_call_id_mod(start, j);
    if nth_call_id(start, i) == nth_call_id(start, j) {
        vstd::arithmetic::div_mod::lemma_mod_bound(start + i, m);
        vstd::arithmetic::div_mod::lemma_mod_bound(start + j, m);
        let qi = (start + i) / m;
        let qj = (start + j) / m;
        vstd::arithmetic::div_mod::lemma_fundamental_div_mod(start + i, m);
        vstd::arithmetic::div_mod::lemma_fundamental_div_mod(start + j, m);
        assert(j - i == m * (qj - qi));
        assert(qj - qi >= 1 || qj - qi <= 0) by {
            assert(m * (qj - qi) > 0);
            vstd::arithmetic::mul::lemma_mul_strictly_positive(m, qj - qi);
        };
        if qj - qi >= 1 {
            assert(m * (qj - qi) >= m) by {
                vstd::arithmetic::mul::lemma_mul_inequality(1, qj - qi, m);
            };
        } else {
            assert(m * (qj - qi) <= 0) by {
                vstd::arithmetic::mul::lemma_mul_inequality(qj - qi, 0, m);
            };
        }
        assert(false);
    }
}

} // verus!
