//! Settle detection: after a move is issued, the head suspends for a fixed
//! grace interval, then polls the motor's status until the device reports a
//! settled state.
//!
//! The protocol is a step machine. The library owns every decision: which
//! outside step is due next (suspend, query, finish) and what each polled
//! status means. The runtime performs the steps — it sleeps, queries the
//! link, and reports each status back — and a motor that never settles
//! keeps the wait going without bound, exactly as the protocol demands.

use vstd::prelude::*;

use crate::link::MotionStatus;
use crate::link::is_in_motion;
use crate::link::status_in_motion;

verus! {

/// Milliseconds of unconditional suspension before the first status poll,
/// giving the motor time to leave its prior settled state.
pub const SETTLE_GRACE_MS: u64 = 500;

/// Milliseconds between status polls while the motor reports motion.
pub const SETTLE_POLL_MS: u64 = 250;

/// The outside step a settle-wait asks for next.
#[derive(Clone, Copy, Debug, PartialEq, Eq)]
pub enum SettleAction {
    /// Suspend for the given number of milliseconds.
    Suspend { ms: u64 },
    /// Query the given motor's status and report it back.
    QueryStatus { motor: u8 },
    /// The motor has settled; the wait is over.
    Finish,
}

/// Phase of one settle-wait.
#[derive(Clone, Copy, Debug, PartialEq, Eq)]
pub enum SettlePhase {
    /// Before the initial grace suspension.
    Grace,
    /// A status query is due.
    Poll,
    /// The last status reported motion; a poll-interval suspension is due.
    Delay,
    /// The last status reported a settled state.
    Settled,
}

/// One settle-wait in progress for a single motor.
#[derive(Clone, Copy, Debug, PartialEq, Eq)]
pub struct SettleWait {
    pub motor: u8,
    pub phase: SettlePhase,
}

impl SettleWait {
    /// What the protocol asks for in each phase.
    pub open spec fn action_due(self) -> SettleAction {
        match self.phase {
            SettlePhase::Grace => SettleAction::Suspend { ms: SETTLE_GRACE_MS },
            SettlePhase::Poll => SettleAction::QueryStatus { motor: self.motor },
            SettlePhase::Delay => SettleAction::Suspend { ms: SETTLE_POLL_MS },
            SettlePhase::Settled => SettleAction::Finish,
        }
    }

    /// Starts the protocol for one motor; the grace suspension is due
    /// first, unconditionally.
    pub fn begin(motor: u8) -> (w: SettleWait)
        ensures
            w.motor == motor,
            w.phase == SettlePhase::Grace,
    {
        SettleWait { motor, phase: SettlePhase::Grace }
    }

    /// The outside step due now.
    pub fn next_action(&self) -> (a: SettleAction)
        ensures
            a == self.action_due(),
    {
        match self.phase {
            SettlePhase::Grace => SettleAction::Suspend { ms: SETTLE_GRACE_MS },
            SettlePhase::Poll => SettleAction::QueryStatus { motor: self.motor },
            SettlePhase::Delay => SettleAction::Suspend { ms: SETTLE_POLL_MS },
            SettlePhase::Settled => SettleAction::Finish,
        }
    }

    /// Records that a requested suspension completed; a status poll is due
    /// next.
    pub fn note_suspended(&mut self)
        requires
            old(self).phase == SettlePhase::Grace || old(self).phase == SettlePhase::Delay,
        ensures
            final(self).motor == old(self).motor,
            final(self).phase == SettlePhase::Poll,
    {
        self.phase = SettlePhase::Poll;
    }

    /// Records one polled status. The wait finishes exactly when the
    /// status lies outside the in-motion states; any in-motion status
    /// makes a poll-interval suspension due instead.
    pub fn note_status(&mut self, status: MotionStatus)
        requires
            old(self).phase == SettlePhase::Poll,
        ensures
            final(self).motor == old(self).motor,
            final(self).phase == (if status_in_motion(status) {
                SettlePhase::Delay
            } else {
                SettlePhase::Settled
            }),
    {
        if is_in_motion(status) {
            self.phase = SettlePhase::Delay;
        } else {
            self.phase = SettlePhase::Settled;
        }
    }

    /// Whether the wait is over.
    pub fn is_settled(&self) -> (r: bool)
        ensures
            r == (self.phase == SettlePhase::Settled),
    {
        match self.phase {
            SettlePhase::Settled => true,
            _ => false,
        }
    }
}

/// The number of leading in-motion statuses in a recorded sequence: each
/// one keeps the wait polling; the first status after them ends it.
pub open spec fn in_motion_prefix_len(s: Seq<MotionStatus>) -> int
    decreases s.len(),
{
    if s.len() == 0 {
        0
    } else if !status_in_motion(s[0]) {
        0
    } else {
        1 + in_motion_prefix_len(s.drop_first())
    }
}

/// The leading in-motion prefix is a well-formed cut of the sequence: every
/// status before it reports motion, and the status at its end, if any,
/// reports a settled state.
pub proof fn lemma_in_motion_prefix(s: Seq<MotionStatus>)
    ensures
        0 <= in_motion_prefix_len(s) <= s.len(),
        forall|i: int| 0 <= i < in_motion_prefix_len(s) ==> status_in_motion(s[i]),
        in_motion_prefix_len(s) < s.len() ==> !status_in_motion(s[in_motion_prefix_len(s)]),
    decreases s.len(),
{
    if s.len() == 0 {
    } else if !status_in_motion(s[0]) {
    } else {
        lemma_in_motion_prefix(s.drop_first());
        assert forall|i: int| 0 <= i < in_motion_prefix_len(s) implies status_in_motion(s[i]) by {
            if i > 0 {
                assert(s.drop_first()[i - 1] == s[i]);
            }
        }
        if in_motion_prefix_len(s) < s.len() {
            assert(s.drop_first()[in_motion_prefix_len(s) - 1] == s[in_motion_prefix_len(s)]);
        }
    }
}

/// The cut characterizes the prefix length: if the first `k` statuses all
/// report motion and the one at `k`, if any, does not, then `k` is the
/// leading in-motion prefix.
pub proof fn lemma_in_motion_prefix_value(s: Seq<MotionStatus>, k: int)
    requires
        0 <= k <= s.len(),
        forall|i: int| 0 <= i < k ==> status_in_motion(s[i]),
        k < s.len() ==> !status_in_motion(s[k]),
    ensures
        in_motion_prefix_len(s) == k,
    decreases s.len(),
{
    if k == 0 {
    } else {
        assert(status_in_motion(s[0]));
        assert forall|i: int| 0 <= i < k - 1 implies status_in_motion(s.drop_first()[i]) by {
            assert(s.drop_first()[i] == s[i + 1]);
        }
        if k - 1 < s.drop_first().len() {
            assert(s.drop_first()[k - 1] == s[k]);
        }
        lemma_in_motion_prefix_value(s.drop_first(), k - 1);
    }
}

/// Accounting of one settle-wait run over a recorded status sequence.
#[derive(Clone, Copy, Debug, PartialEq, Eq)]
pub struct SettleOutcome {
    /// Initial unconditional suspensions: always exactly one.
    pub grace_suspensions: u64,
    /// Poll-interval suspensions: one per in-motion status polled.
    pub poll_suspensions: u64,
    /// Whether the wait ended; a recording that runs out while the motor
    /// still reports motion leaves the wait unfinished.
    pub settled: bool,
}

/// Runs the settle protocol over a pre-recorded sequence of status
/// reports, consuming one report per poll, and counts the suspensions.
///
/// The wait ends exactly when some polled status lies outside the
/// in-motion states; the poll that ends it is the first such status, and
/// every earlier poll saw motion.
pub fn run_settle(motor: u8, statuses: &Vec<MotionStatus>) -> (t: SettleOutcome)
    ensures
        t.grace_suspensions == 1,
        t.poll_suspensions == in_motion_prefix_len(statuses@),
        t.settled == (in_motion_prefix_len(statuses@) < statuses@.len()),
        t.settled ==> !status_in_motion(statuses@[in_motion_prefix_len(statuses@)]),
        forall|i: int| 0 <= i < in_motion_prefix_len(statuses@) ==> status_in_motion(statuses@[i]),
{
    let mut w = SettleWait::begin(motor);
    // The runtime would sleep for the grace interval here.
    w.note_suspended();
    let mut polls: u64 = 0;
    let mut i: usize = 0;
    let mut settled = false;
    while i < statuses.len() && !settled
        invariant
            w.motor == motor,
            i <= statuses@.len(),
            polls == i,
            !settled ==> w.phase == SettlePhase::Poll,
            settled ==> w.phase == SettlePhase::Settled,
            settled ==> i < statuses@.len() && !status_in_motion(statuses@[i as int]),
            forall|j: int| 0 <= j < i ==> status_in_motion(statuses@[j]),
        decreases statuses@.len() - i + (if settled { 0int } else { 1int }),
    {
        let status = statuses[i];
        w.note_status(status);
        if w.is_settled() {
            settled = true;
        } else {
            // The runtime would sleep for the poll interval here.
            polls = polls + 1;
            w.note_suspended();
            i = i + 1;
        }
    }
    proof {
        lemma_in_motion_prefix_value(statuses@, i as int);
    }
    SettleOutcome { grace_suspensions: 1, poll_suspensions: polls, settled }
}

/// Law: over any recorded status sequence, the settle-wait returns if and
/// only if some polled status lies outside the in-motion states — that
/// is, exactly when the most recently polled status reports settled.
pub proof fn lemma_settle_returns_iff(s: Seq<MotionStatus>)
    ensures
        (in_motion_prefix_len(s) < s.len()) <==> (exists|i: int|
            0 <= i < s.len() && !status_in_motion(s[i])),
{
    lemma_in_motion_prefix(s);
    if in_motion_prefix_len(s) < s.len() {
        assert(!status_in_motion(s[in_motion_prefix_len(s)]));
    }
    if exists|i: int| 0 <= i < s.len() && !status_in_motion(s[i]) {
        let i = choose|i: int| 0 <= i < s.len() && !status_in_motion(s[i]);
        if in_motion_prefix_len(s) == s.len() {
            assert(status_in_motion(s[i]));
        }
    }
}

} // verus!
