//! A minimal deterministic sequencer: issue one command, wait for its
//! matching response (or a deadline), then issue the next.

use vstd::prelude::*;

verus! {

/// Window, in milliseconds, within which a response to an issued request
/// must arrive.
pub const REQUEST_TIMEOUT: u64 = 30_000;

/// An error carrying the time a deadline was found to have passed and the
/// deadline itself; only constructible when `now > deadline`.
#[derive(Debug, Clone, PartialEq, Eq, Structural)]
pub struct DeadlineExceeded {
    /// The deadline that was set, in milliseconds.
    pub deadline: u64,
    /// The time at which the deadline was observed to have passed.
    pub now: u64,
}

impl DeadlineExceeded {
    /// Creates a new instance; the caller must have observed `now > deadline`.
    pub fn new(now: u64, deadline: u64) -> (r: DeadlineExceeded)
        requires
            now > deadline,
        ensures
            r.now == now,
            r.deadline == deadline,
    {
        DeadlineExceeded { now, deadline }
    }
}

/// The deadline set when a command is issued at `now` with window `timeout`:
/// `now + timeout`, saturating at the largest representable time.
pub open spec fn deadline_after(now: u64, timeout: u64) -> u64 {
    if now + timeout <= u64::MAX {
        (now + timeout) as u64
    } else {
        u64::MAX
    }
}

/// What one call of [`CommandChain::poll`] reports.
#[derive(Debug, Clone, PartialEq)]
pub enum ChainPoll {
    /// A previously issued command is still awaited and its deadline has not
    /// passed.
    Pending,
    /// The next command to issue: method identifier and serialized params.
    Next(String, String),
    /// The awaited command's deadline has passed; the awaited slot is
    /// cleared, so this is reported exactly once per command.
    TimedOut(DeadlineExceeded),
    /// The queue is empty and nothing is awaited.
    Done,
}

/// A token standing for one caller's single-use reply channel; the driver
/// outside the crate maps tokens to real channels and performs the sends.
#[derive(Debug, Clone, Copy, PartialEq, Eq, Structural, Hash)]
pub struct CallerId(pub u64);

/// A command a caller submitted, together with the token under which its
/// reply is owed.
#[derive(Debug)]
pub struct CommandMessage {
    /// The method identifier.
    pub method: String,
    /// The session the command is routed through, if any.
    pub session_id: Option<String>,
    /// The parameters, as serialized JSON text.
    pub params: String,
    /// The caller the eventual response belongs to.
    pub sender: CallerId,
}

impl CommandMessage {
    /// Whether this command is a navigation, which resolves only when the
    /// page finishes loading rather than when its response arrives.
    pub fn is_navigation(&self) -> (r: bool)
        ensures
            r == (self.method@ == "Page.navigate"@),
    {
        crate::strutil::str_eq(self.method.as_str(), "Page.navigate")
    }
}

/// An ordered queue of (method, params) commands with an optional
/// currently-awaited entry and a per-command response window.
#[derive(Debug)]
#[verifier::ext_equal]
pub struct CommandChain {
    /// The commands still to issue: (method identifier, serialized params).
    pub cmds: Vec<(String, String)>,
    /// Position in `cmds` of the next command to issue.
    pub next: usize,
    /// The method of the last issued command and the deadline by which its
    /// response must arrive.
    pub waiting: Option<(String, u64)>,
    /// The response window in milliseconds.
    pub timeout: u64,
}

impl CommandChain {
    /// The commands not yet issued, oldest first.
    pub open spec fn pending(&self) -> Seq<(String, String)> {
        self.cmds@.skip(self.next as int)
    }

    /// The queue position is inside the queue.
    pub open spec fn wf(&self) -> bool {
        self.next <= self.cmds@.len()
    }

    /// Creates a new `CommandChain` issuing the given commands in order.
    pub fn new(cmds: Vec<(String, String)>) -> (r: CommandChain)
        ensures
            r.wf(),
            r.pending() == cmds@,
            r.waiting is None,
            r.timeout == REQUEST_TIMEOUT,
    {
        let r = CommandChain { cmds, next: 0, waiting: None, timeout: REQUEST_TIMEOUT };
        proof {
            assert(r.pending() =~= r.cmds@);
        }
        r
    }

    /// Creates an empty chain: the first poll reports `Done`.
    pub fn empty() -> (r: CommandChain)
        ensures
            r.wf(),
            r.pending().len() == 0,
            r.waiting is None,
            r.timeout == REQUEST_TIMEOUT,
    {
        CommandChain::new(Vec::new())
    }

    /// Queue in another command after the ones already queued.
    pub fn push_back(&mut self, method: String, params: String)
        requires
            old(self).wf(),
        ensures
            final(self).wf(),
            final(self).pending() == old(self).pending().push((method, params)),
            final(self).waiting == old(self).waiting,
            final(self).timeout == old(self).timeout,
    {
        self.cmds.push((method, params));
        proof {
            assert(final(self).pending() =~= old(self).pending().push((method, params)));
        }
    }

    /// Clears the awaited slot if `identifier` names the last issued command,
    /// and reports whether it did; a response for an unrelated command leaves
    /// the chain untouched.
    pub fn received_response(&mut self, identifier: &str) -> (r: bool)
        ensures
            r == (old(self).waiting matches Some(w) && w.0@ == identifier@),
            final(self).waiting == if r { None::<(String, u64)> } else { old(self).waiting },
            final(self).cmds == old(self).cmds,
            final(self).next == old(self).next,
            final(self).timeout == old(self).timeout,
    {
        let matches = match &self.waiting {
            Some((m, _)) => crate::strutil::str_eq(m.as_str(), identifier),
            None => false,
        };
        if matches {
            self.waiting = None;
        }
        matches
    }

    /// Reports the next step at time `now`:
    /// - if a command is awaited past its deadline, `TimedOut`, clearing the
    ///   awaited slot without re-queuing the command;
    /// - if a command is awaited within its deadline, `Pending`;
    /// - otherwise the next queued command as `Next`, recording it as awaited
    ///   until `now + timeout`;
    /// - `Done` when the queue is empty and nothing is awaited.
    pub fn poll(&mut self, now: u64) -> (r: ChainPoll)
        requires
            old(self).wf(),
        ensures
            final(self).wf(),
            final(self).timeout == old(self).timeout,
            final(self).cmds == old(self).cmds,
            (r, *final(self)) == spec_poll(*old(self), now),
            (match old(self).waiting {
                Some(w) => {
                    if now > w.1 {
                        &&& r == ChainPoll::TimedOut(DeadlineExceeded { now, deadline: w.1 })
                        &&& final(self).waiting is None
                        &&& final(self).next == old(self).next
                    } else {
                        &&& r == ChainPoll::Pending
                        &&& *final(self) == *old(self)
                    }
                },
                None => {
                    if old(self).pending().len() > 0 {
                        &&& r == ChainPoll::Next(
                            old(self).pending()[0].0,
                            old(self).pending()[0].1,
                        )
                        &&& final(self).waiting == Some(
                            (old(self).pending()[0].0, deadline_after(now, old(self).timeout)),
                        )
                        &&& final(self).pending() == old(self).pending().skip(1)
                    } else {
                        &&& r == ChainPoll::Done
                        &&& *final(self) == *old(self)
                    }
                },
            }),
    {
        match &self.waiting {
            Some((_, deadline)) => {
                let d = *deadline;
                if now > d {
                    self.waiting = None;
                    ChainPoll::TimedOut(DeadlineExceeded::new(now, d))
                } else {
                    ChainPoll::Pending
                }
            },
            None => {
                if self.next < self.cmds.len() {
                    let (method, params) = (
                        self.cmds[self.next].0.clone(),
                        self.cmds[self.next].1.clone(),
                    );
                    let deadline = if now <= u64::MAX - self.timeout {
                        now + self.timeout
                    } else {
                        u64::MAX
                    };
                    self.next = self.next + 1;
                    self.waiting = Some((method.clone(), deadline));
                    proof {
                        assert(final(self).pending() =~= old(self).pending().skip(1));
                    }
                    ChainPoll::Next(method, params)
                } else {
                    ChainPoll::Done
                }
            },
        }
    }
}

/// Law: polling an empty, non-awaiting chain reports `Done` immediately and
/// leaves the chain unchanged; polling a chain whose one outstanding command
/// is past its deadline reports the failure exactly once — the second poll
/// does not report it again and does not reissue the timed-out command.
pub proof fn lemma_poll_boundary(chain: CommandChain, now: u64, later: u64)
    requires
        chain.wf(),
        later >= now,
    ensures
        (chain.pending().len() == 0 && chain.waiting is None) ==> {
            let (r, c1) = spec_poll(chain, now);
            r == ChainPoll::Done && c1 == chain
        },
        ({
            &&& chain.pending().len() == 0
            &&& chain.waiting is Some
            &&& now > chain.waiting.unwrap().1
        }) ==> ({
            let w = chain.waiting.unwrap();
            let (r1, c1) = spec_poll(chain, now);
            let (r2, c2) = spec_poll(c1, later);
            &&& r1 == ChainPoll::TimedOut(DeadlineExceeded { now, deadline: w.1 })
            &&& r2 == ChainPoll::Done
            &&& !(r2 matches ChainPoll::Next(_, _))
        }),
{
}

/// The transition [`CommandChain::poll`] makes, as a function of the chain
/// state and the time; `poll`'s contract states that it computes exactly
/// this.
pub open spec fn spec_poll(chain: CommandChain, now: u64) -> (ChainPoll, CommandChain) {
    match chain.waiting {
        Some(w) => {
            if now > w.1 {
                (
                    ChainPoll::TimedOut(DeadlineExceeded { now, deadline: w.1 }),
                    CommandChain { waiting: None, ..chain },
                )
            } else {
                (ChainPoll::Pending, chain)
            }
        },
        None => {
            if chain.pending().len() > 0 {
                (
                    ChainPoll::Next(chain.pending()[0].0, chain.pending()[0].1),
                    (CommandChain {
                        waiting: Some((chain.pending()[0].0, deadline_after(now, chain.timeout))),
                        next: (chain.next + 1) as usize,
                        ..chain
                    }),
                )
            } else {
                (ChainPoll::Done, chain)
            }
        },
    }
}

} // verus!
