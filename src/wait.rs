//! Decisions of the blocking wait: poll whether a message is being spoken,
//! once a second, until it is not or the time limit is used up.
//!
//! The caller runs the loop and performs each step:
//! ```text
//! let mut w = Waiter::new(limit_sec);
//! while w.next_poll() {
//!     if w.after_poll(/* outcome of the playing query */) { /* sleep a second */ }
//! }
//! ```
use vstd::prelude::*;
use crate::error::MyError;

verus! {

/// Where a wait stands.
pub struct Waiter {
    limit_sec: i16,
    polls: u16,
    finished: bool,
}

/// A wait's state as plain values: its limit in seconds, the polls made so
/// far, and whether it has ended.
pub struct WaiterView {
    pub limit_sec: int,
    pub polls: nat,
    pub finished: bool,
}

impl View for Waiter {
    type V = WaiterView;

    closed spec fn view(&self) -> WaiterView {
        WaiterView { limit_sec: self.limit_sec as int, polls: self.polls as nat, finished: self.finished }
    }
}

/// The most polls a wait of `limit_sec` seconds makes: one less than the
/// limit, and none for a limit below 2.
pub open spec fn poll_bound(limit_sec: int) -> nat {
    if limit_sec > 1 { (limit_sec - 1) as nat } else { 0 }
}

/// The state a wait starts in.
pub open spec fn start(limit_sec: int) -> WaiterView {
    WaiterView { limit_sec, polls: 0, finished: false }
}

/// Whether another poll is due.
pub open spec fn poll_due(w: WaiterView) -> bool {
    !w.finished && w.polls + 1 < w.limit_sec
}

/// The state after deciding on the next poll: one more poll, or the end.
pub open spec fn after_decision(w: WaiterView) -> WaiterView {
    if poll_due(w) {
        WaiterView { polls: w.polls + 1, ..w }
    } else {
        WaiterView { finished: true, ..w }
    }
}

/// The state after a poll's answer: unchanged while playing, else ended.
pub open spec fn after_answer(w: WaiterView, playing: bool) -> WaiterView {
    if playing { w } else { WaiterView { finished: true, ..w } }
}

/// The state a wait reaches when successive polls are answered by `replies`
/// (`true`: still playing).
pub open spec fn wait_run(w: WaiterView, replies: Seq<bool>) -> WaiterView
    decreases replies.len(),
{
    if !poll_due(w) {
        after_decision(w)
    } else if replies.len() == 0 {
        w
    } else {
        wait_run(after_answer(after_decision(w), replies[0]), replies.drop_first())
    }
}

/// How many polls it takes to see "not playing" when successive polls are
/// answered by `replies`: the position of the first `false`, plus one, or the
/// whole length when there is none.
pub open spec fn polls_until_idle(replies: Seq<bool>) -> nat
    decreases replies.len(),
{
    if replies.len() == 0 {
        0
    } else if !replies[0] {
        1
    } else {
        1 + polls_until_idle(replies.drop_first())
    }
}

impl WaiterView {
    pub open spec fn wf(self) -> bool {
        self.polls <= poll_bound(self.limit_sec) && i16::MIN <= self.limit_sec <= i16::MAX
    }
}

proof fn lemma_wait_run_from(w: WaiterView, replies: Seq<bool>)
    requires
        w.wf(),
        !w.finished,
        replies.len() >= poll_bound(w.limit_sec) - w.polls,
    ensures
        wait_run(w, replies).finished,
        wait_run(w, replies).polls == w.polls + vstd::math::min(
            polls_until_idle(replies) as int,
            poll_bound(w.limit_sec) - w.polls,
        ),
    decreases replies.len(),
{
    if poll_due(w) && replies.len() > 0 {
        let next = after_answer(after_decision(w), replies[0]);
        if replies[0] {
            lemma_wait_run_from(next, replies.drop_first());
            assert(polls_until_idle(replies) == 1 + polls_until_idle(replies.drop_first()));
            assert(wait_run(w, replies) == wait_run(next, replies.drop_first()));
            assert(next.polls == w.polls + 1);
        } else {
            assert(!poll_due(next));
            assert(polls_until_idle(replies) == 1);
            assert(wait_run(w, replies) == wait_run(next, replies.drop_first()));
            assert(wait_run(next, replies.drop_first()) == after_decision(next));
            assert(after_decision(next).polls == w.polls + 1);
        }
    } else {
        assert(w.polls == poll_bound(w.limit_sec));
    }
}

/// A wait of `limit_sec` seconds ends after at most `limit_sec - 1` polls,
/// and stops at the first poll that reports "not playing": when successive
/// polls are answered by `replies`, it makes exactly as many polls as it
/// takes to see "not playing", capped by that bound.
pub proof fn lemma_wait_polls(limit_sec: i16, replies: Seq<bool>)
    requires
        replies.len() >= poll_bound(limit_sec as int),
    ensures
        wait_run(start(limit_sec as int), replies).finished,
        wait_run(start(limit_sec as int), replies).polls == vstd::math::min(
            polls_until_idle(replies) as int,
            poll_bound(limit_sec as int) as int,
        ),
{
    lemma_wait_run_from(start(limit_sec as int), replies);
}

impl Waiter {
    /// A wait that may last `limit_sec` seconds.
    pub fn new(limit_sec: i16) -> (r: Self)
        ensures
            r@ == start(limit_sec as int),
            r@.wf(),
    {
        Waiter { limit_sec, polls: 0, finished: false }
    }

    /// Whether to poll now. Counts the poll when it is due, and ends the wait
    /// when it is not.
    pub fn next_poll(&mut self) -> (r: bool)
        requires
            old(self)@.wf(),
        ensures
            r == poll_due(old(self)@),
            final(self)@ == after_decision(old(self)@),
            final(self)@.wf(),
    {
        if !self.finished && (self.polls as i32) + 1 < self.limit_sec as i32 {
            self.polls = self.polls + 1;
            true
        } else {
            self.finished = true;
            false
        }
    }

    /// Records the outcome of a poll and says whether to sleep before the next
    /// one: only while a message is still playing. "Not playing" and a failed
    /// poll end the wait at once.
    pub fn after_poll(&mut self, playing: Result<bool, MyError>) -> (r: bool)
        requires
            old(self)@.wf(),
        ensures
            r == (playing matches Ok(p) && p),
            final(self)@ == after_answer(old(self)@, r),
            final(self)@.wf(),
    {
        match playing {
            Ok(true) => true,
            _ => {
                self.finished = true;
                false
            },
        }
    }

    /// Whether the wait has ended.
    pub fn is_finished(&self) -> (r: bool)
        ensures
            r == self@.finished,
    {
        self.finished
    }
}

} // verus!
