//! The worker lifecycle: a single slot holding at most one running worker,
//! its start/stop state machine, the cooperative-cancellation flag, and the
//! pull-mode queue with its drain operation.
//!
//! The slot itself is the only shared mutable state of the design; the host
//! is expected to guard a `Notifier` with one exclusive lock and to hold that
//! lock only for the brief critical sections that these methods implement,
//! never across the blocking join of the worker thread. To make that
//! possible, `stop` is also available as its two critical sections
//! (`signal_stop`, then `take_worker`), with the join itself performed by the
//! caller on the thread handle it owns.

use vstd::prelude::*;

use crate::envelope::Color;
use crate::envelope::Comment;
use crate::envelope::views_of;

verus! {

/// How produced envelopes reach the host: handed out one at a time for an
/// immediate callback (push), or accumulated in a queue until drained (pull).
#[derive(Clone, Copy, PartialEq, Eq, Structural, Debug)]
pub enum Mode {
    Push,
    Pull,
}

/// The state bound to one running worker: its delivery mode, the pull-mode
/// queue, and the cooperative-cancellation flag. The ghost fields record the
/// full production history and what past drains have already handed over.
struct Worker {
    mode: Mode,
    queue: Vec<Comment>,
    keep_running: bool,
    produced: Ghost<Seq<(Seq<char>, Color)>>,
    drained: Ghost<Seq<(Seq<char>, Color)>>,
}

/// The lifecycle slot. At most one worker exists at any time; the ghost
/// counters record how many workers were ever started and joined, so that
/// this single-worker policy is itself a proved invariant.
pub struct Notifier {
    slot: Option<Worker>,
    started_count: Ghost<nat>,
    joined_count: Ghost<nat>,
}

/// The notifier's protocol revision.
pub fn version() -> (v: u64)
    ensures
        v == 3,
{
    3
}

impl Notifier {
    /// Whether a worker currently occupies the slot.
    pub closed spec fn is_running(&self) -> bool {
        self.slot is Some
    }

    /// The running worker's delivery mode.
    pub closed spec fn mode(&self) -> Mode
        recommends
            self.is_running(),
    {
        self.slot->0.mode
    }

    /// The cooperative-cancellation flag: true while the worker should keep
    /// producing.
    pub closed spec fn keep_running(&self) -> bool
        recommends
            self.is_running(),
    {
        self.slot->0.keep_running
    }

    /// The envelopes currently buffered in the pull-mode queue, in
    /// production order.
    pub closed spec fn queue_comments(&self) -> Seq<Comment>
        recommends
            self.is_running(),
    {
        self.slot->0.queue@
    }

    /// The views of the buffered envelopes, in production order.
    pub open spec fn queue_model(&self) -> Seq<(Seq<char>, Color)>
        recommends
            self.is_running(),
    {
        views_of(self.queue_comments())
    }

    /// Everything the running worker has produced so far, in order.
    pub closed spec fn produced(&self) -> Seq<(Seq<char>, Color)>
        recommends
            self.is_running(),
    {
        self.slot->0.produced@
    }

    /// Everything past drains have already moved to the host, in order.
    pub closed spec fn drained(&self) -> Seq<(Seq<char>, Color)>
        recommends
            self.is_running(),
    {
        self.slot->0.drained@
    }

    /// How many worker threads were ever started.
    pub closed spec fn workers_started(&self) -> nat {
        self.started_count@
    }

    /// How many worker threads were taken out of the slot for joining.
    pub closed spec fn workers_joined(&self) -> nat {
        self.joined_count@
    }

    /// How many worker threads are alive right now.
    pub open spec fn workers_alive(&self) -> int {
        self.workers_started() - self.workers_joined()
    }

    /// Well-formedness of the lifecycle state: a started worker that was not
    /// yet joined is exactly a worker in the slot; in pull mode the history
    /// splits exactly into what was drained and what is still queued; in push
    /// mode no queue accumulates and nothing is ever drained.
    pub closed spec fn wf(&self) -> bool {
        &&& self.started_count@ == self.joined_count@ + (if self.slot is Some {
            1nat
        } else {
            0nat
        })
        &&& (self.is_running() && self.mode() == Mode::Pull ==> self.produced() == self.drained()
            + self.queue_model())
        &&& (self.is_running() && self.mode() == Mode::Push ==> self.queue_comments()
            == Seq::<Comment>::empty() && self.drained() == Seq::<(Seq<char>, Color)>::empty())
    }

    /// Creates the lifecycle slot, empty: no worker, nothing started yet.
    pub fn new() -> (n: Notifier)
        ensures
            n.wf(),
            !n.is_running(),
            n.workers_started() == 0,
            n.workers_joined() == 0,
    {
        Notifier { slot: None, started_count: Ghost(0), joined_count: Ghost(0) }
    }

    /// Whether a worker currently occupies the slot (executable form).
    pub fn running(&self) -> (r: bool)
        ensures
            r == self.is_running(),
    {
        self.slot.is_some()
    }

    /// The cooperative-cancellation check the worker performs between events.
    pub fn should_continue(&self) -> (r: bool)
        requires
            self.is_running(),
        ensures
            r == self.keep_running(),
    {
        self.slot.as_ref().unwrap().keep_running
    }

    /// First critical section of `start`: if a worker is already present,
    /// nothing changes and `false` reports "already running"; otherwise the
    /// slot is populated with a fresh worker bound to the given delivery mode
    /// and `true` tells the caller that it, and only it, must now spawn the
    /// one worker thread.
    pub fn start(&mut self, mode: Mode) -> (started: bool)
        requires
            old(self).wf(),
        ensures
            final(self).wf(),
            started == !old(self).is_running(),
            old(self).is_running() ==> *final(self) == *old(self),
            !old(self).is_running() ==> final(self).is_running(),
            !old(self).is_running() ==> final(self).mode() == mode,
            !old(self).is_running() ==> final(self).keep_running(),
            !old(self).is_running() ==> final(self).queue_comments() == Seq::<Comment>::empty(),
            !old(self).is_running() ==> final(self).produced() == Seq::<(
                Seq<char>,
                Color,
            )>::empty(),
            !old(self).is_running() ==> final(self).drained() == Seq::<(Seq<char>, Color)>::empty(),
            !old(self).is_running() ==> final(self).workers_started() == old(
                self,
            ).workers_started() + 1,
            final(self).workers_joined() == old(self).workers_joined(),
    {
        if self.slot.is_some() {
            false
        } else {
            self.slot = Some(
                Worker {
                    mode,
                    queue: Vec::new(),
                    keep_running: true,
                    produced: Ghost(Seq::empty()),
                    drained: Ghost(Seq::empty()),
                },
            );
            self.started_count = Ghost(self.started_count@ + 1);
            proof {
                assert(self.queue_model() =~= Seq::<(Seq<char>, Color)>::empty());
            }
            true
        }
    }

    /// First critical section of `stop`: clears the cooperative-cancellation
    /// flag of the worker, if any. This only signals; the worker keeps the
    /// slot until `take_worker`, and a worker blocked waiting for its next
    /// event notices the signal only after that event arrives.
    pub fn signal_stop(&mut self)
        requires
            old(self).wf(),
        ensures
            final(self).wf(),
            final(self).is_running() == old(self).is_running(),
            !old(self).is_running() ==> *final(self) == *old(self),
            old(self).is_running() ==> !final(self).keep_running(),
            old(self).is_running() ==> final(self).mode() == old(self).mode(),
            old(self).is_running() ==> final(self).queue_comments() == old(self).queue_comments(),
            old(self).is_running() ==> final(self).produced() == old(self).produced(),
            old(self).is_running() ==> final(self).drained() == old(self).drained(),
            final(self).workers_started() == old(self).workers_started(),
            final(self).workers_joined() == old(self).workers_joined(),
    {
        let taken = self.slot.take();
        match taken {
            None => {},
            Some(mut w) => {
                w.keep_running = false;
                self.slot = Some(w);
            },
        }
    }

    /// Second critical section of `stop`: empties the slot, handing the
    /// worker back to the caller as "present" so the caller joins the thread
    /// handle it holds, outside any lock. With no worker present this is a
    /// no-op that reports `false`.
    pub fn take_worker(&mut self) -> (had: bool)
        requires
            old(self).wf(),
        ensures
            final(self).wf(),
            !final(self).is_running(),
            had == old(self).is_running(),
            !old(self).is_running() ==> *final(self) == *old(self),
            final(self).workers_started() == old(self).workers_started(),
            old(self).is_running() ==> final(self).workers_joined() == old(self).workers_joined()
                + 1,
            !old(self).is_running() ==> final(self).workers_joined() == old(self).workers_joined(),
    {
        let taken = self.slot.take();
        match taken {
            None => false,
            Some(_) => {
                self.joined_count = Ghost(self.joined_count@ + 1);
                true
            },
        }
    }

    /// Delivers one produced envelope through the channel the worker was
    /// started with. In pull mode the envelope is appended to the queue and
    /// `None` comes back; in push mode the envelope itself comes back, for
    /// the caller to hand to the host's callback immediately. Either way the
    /// envelope is recorded, in order, in the production history.
    pub fn put_comment(&mut self, comment: Comment) -> (handed: Option<Comment>)
        requires
            old(self).wf(),
            old(self).is_running(),
        ensures
            final(self).wf(),
            final(self).is_running(),
            final(self).mode() == old(self).mode(),
            final(self).keep_running() == old(self).keep_running(),
            final(self).workers_started() == old(self).workers_started(),
            final(self).workers_joined() == old(self).workers_joined(),
            final(self).produced() == old(self).produced().push(comment@),
            final(self).drained() == old(self).drained(),
            old(self).mode() == Mode::Pull ==> handed is None && final(self).queue_comments()
                == old(self).queue_comments().push(comment),
            old(self).mode() == Mode::Push ==> handed == Some(comment)
                && final(self).queue_comments() == old(self).queue_comments(),
    {
        let mut w = self.slot.take().unwrap();
        w.produced = Ghost(w.produced@.push(comment@));
        match w.mode {
            Mode::Pull => {
                let ghost before = w.queue@;
                w.queue.push(comment);
                proof {
                    assert(views_of(w.queue@) =~= views_of(before).push(comment@));
                }
                self.slot = Some(w);
                None
            },
            Mode::Push => {
                self.slot = Some(w);
                Some(comment)
            },
        }
    }

    /// The drain operation (pull mode): moves every envelope buffered so far
    /// into the host's container, appended after its current contents in
    /// production order, and leaves the internal queue empty. Nothing is
    /// lost and nothing is duplicated: the drained history grows by exactly
    /// the batch that the host just received.
    pub fn sync_process_queue(&mut self, messages: &mut Vec<Comment>)
        requires
            old(self).wf(),
            old(self).is_running(),
        ensures
            final(self).wf(),
            final(self).is_running(),
            final(self).mode() == old(self).mode(),
            final(self).keep_running() == old(self).keep_running(),
            final(self).workers_started() == old(self).workers_started(),
            final(self).workers_joined() == old(self).workers_joined(),
            final(self).produced() == old(self).produced(),
            final(messages)@ == old(messages)@ + old(self).queue_comments(),
            final(self).queue_comments() == Seq::<Comment>::empty(),
            final(self).drained() == old(self).drained() + old(self).queue_model(),
    {
        let mut w = self.slot.take().unwrap();
        let ghost moved = views_of(w.queue@);
        messages.append(&mut w.queue);
        w.drained = Ghost(w.drained@ + moved);
        proof {
            assert(views_of(Seq::<Comment>::empty()) =~= Seq::<(Seq<char>, Color)>::empty());
            if w.mode == Mode::Pull {
                assert(w.produced@ =~= w.drained@ + views_of(w.queue@));
            } else {
                assert(w.drained@ =~= Seq::<(Seq<char>, Color)>::empty());
            }
        }
        self.slot = Some(w);
    }

    /// The state `stop` leaves behind, as a function of the state it found:
    /// the slot emptied, with the worker (if one was present) counted as
    /// joined.
    pub closed spec fn stop_spec(self) -> Notifier {
        Notifier {
            slot: None,
            started_count: self.started_count,
            joined_count: Ghost(
                self.joined_count@ + (if self.slot is Some {
                    1nat
                } else {
                    0nat
                }),
            ),
        }
    }

    /// The full stop operation: signal cancellation, then tear the worker
    /// down. Idempotent: with no worker present it changes nothing and
    /// reports `false`, so there is nothing to block on. When it reports
    /// `true` the caller must join the one worker thread it spawned.
    pub fn stop(&mut self) -> (had: bool)
        requires
            old(self).wf(),
        ensures
            final(self).wf(),
            !final(self).is_running(),
            had == old(self).is_running(),
            *final(self) == old(self).stop_spec(),
            !old(self).is_running() ==> *final(self) == *old(self),
            final(self).workers_started() == old(self).workers_started(),
            old(self).is_running() ==> final(self).workers_joined() == old(self).workers_joined()
                + 1,
            !old(self).is_running() ==> final(self).workers_joined() == old(self).workers_joined(),
    {
        self.signal_stop();
        self.take_worker()
    }
}

/// Stopping is idempotent: a second `stop` right after a first one changes
/// nothing, and a `stop` with no prior `start` leaves the notifier exactly
/// as it was; in either case there is no worker to wait for.
pub proof fn lemma_stop_idempotent(n: Notifier)
    ensures
        n.stop_spec().stop_spec() == n.stop_spec(),
        !n.is_running() ==> n.stop_spec() == n,
        !n.stop_spec().is_running(),
{
}

/// At most one worker thread is ever alive: of the workers ever started, all
/// but at most one - the one in the slot - have already been joined.
pub proof fn lemma_at_most_one_worker(n: &Notifier)
    requires
        n.wf(),
    ensures
        0 <= n.workers_alive() <= 1,
        n.workers_alive() == 1 <==> n.is_running(),
{
}

/// Exact pull-mode delivery: at every instant, the envelopes observed across
/// all past drains, followed by the envelopes still queued, are exactly the
/// sequence produced so far - same order, no loss, no duplication.
pub proof fn lemma_exact_delivery(n: &Notifier)
    requires
        n.wf(),
        n.is_running(),
        n.mode() == Mode::Pull,
    ensures
        n.drained() + n.queue_model() == n.produced(),
{
}

} // verus!
