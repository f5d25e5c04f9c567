//! The buffer that the collector fills and each poll drains, with a ghost
//! record of every line that went in and every batch that came out.
use vstd::prelude::*;
use crate::event::LineEvent;
use crate::poll::{next_decision, Decision, Observation, PollState};

verus! {

/// What the watcher handed the collector on one request for a line.
pub enum NextLine {
    /// A new line.
    Line(LineEvent),
    /// The sequence of lines ended, which does not happen in normal operation.
    Ended,
    /// The watcher failed, with its message.
    Failed(String),
}

/// Whether the collector still feeds the buffer. Once it has stopped it
/// never runs again.
pub enum CollectorStatus {
    Running,
    Ended,
    Failed(String),
}

/// The result of one tick of a poll on the buffer.
pub enum PollOutcome {
    /// Keep polling with this state.
    Pending(PollState),
    /// The complete batch, in the order in which the lines were collected.
    Lines(Vec<LineEvent>),
    /// Nothing arrived in time.
    Timeout,
    /// The caller was interrupted; whatever was buffered is dropped.
    Cancelled,
    /// The buffer is empty and the collector has stopped, so nothing will
    /// ever arrive.
    CollectorStopped,
}

/// The lines collected so far and not yet handed out.
pub struct LineBuffer {
    events: Vec<LineEvent>,
    status: CollectorStatus,
    appended: Ghost<Seq<LineEvent>>,
    removed: Ghost<Seq<LineEvent>>,
    batches: Ghost<Seq<Seq<LineEvent>>>,
    discarded: Ghost<Seq<LineEvent>>,
}

/// What one tick on `b` sees when it is interrupted or not and runs at `now`.
pub open spec fn observe(b: &LineBuffer, cancelled: bool, now: u64) -> Observation {
    Observation { cancelled, size: b.pending().len() as usize, now }
}

/// The lines of a sequence that came from the file at `path`.
pub open spec fn from_source(path: Seq<char>) -> spec_fn(LineEvent) -> bool {
    |e: LineEvent| e.source@ == path
}

impl LineBuffer {
    /// The lines waiting to be handed out, oldest first.
    pub closed spec fn pending(&self) -> Seq<LineEvent> {
        self.events@
    }

    /// Every line ever appended, in order.
    pub closed spec fn appended(&self) -> Seq<LineEvent> {
        self.appended@
    }

    /// The batches handed out so far, in order.
    pub closed spec fn batches(&self) -> Seq<Seq<LineEvent>> {
        self.batches@
    }

    /// Every line handed out in a batch, in order.
    pub open spec fn delivered(&self) -> Seq<LineEvent> {
        self.batches().flatten_alt()
    }

    /// The lines that were dropped by a timeout or an interruption, in order.
    pub closed spec fn discarded(&self) -> Seq<LineEvent> {
        self.discarded@
    }

    /// Whether the collector has stopped.
    pub closed spec fn stopped(&self) -> bool {
        !(self.status is Running)
    }

    pub closed spec fn wf(&self) -> bool {
        &&& self.appended@ == self.removed@ + self.events@
        &&& self.discarded@.len() == 0 ==> self.removed@ == self.batches@.flatten_alt()
    }

    /// An empty buffer with a running collector and no history.
    pub fn new() -> (r: LineBuffer)
        ensures
            r.wf(),
            r.pending() == Seq::<LineEvent>::empty(),
            r.appended() == Seq::<LineEvent>::empty(),
            r.batches() == Seq::<Seq<LineEvent>>::empty(),
            r.discarded() == Seq::<LineEvent>::empty(),
            !r.stopped(),
    {
        let r = LineBuffer {
            events: Vec::new(),
            status: CollectorStatus::Running,
            appended: Ghost(Seq::empty()),
            removed: Ghost(Seq::empty()),
            batches: Ghost(Seq::empty()),
            discarded: Ghost(Seq::empty()),
        };
        assert(r.removed@ + r.events@ =~= r.appended@);
        r
    }

    /// The number of lines waiting.
    pub fn len(&self) -> (r: usize)
        ensures
            r == self.pending().len(),
    {
        self.events.len()
    }

    /// How the collector stands.
    pub fn status(&self) -> (r: &CollectorStatus)
        ensures
            self.stopped() <==> !(*r is Running),
    {
        &self.status
    }

    /// Records what the watcher handed the collector. A line is appended
    /// while the collector runs; the end of the sequence or a failure stops
    /// the collector for good. Returns whether the collector should ask for
    /// another line.
    pub fn deliver(&mut self, next: NextLine) -> (keep_going: bool)
        requires
            old(self).wf(),
        ensures
            final(self).wf(),
            keep_going == (!old(self).stopped() && next is Line),
            final(self).stopped() == !keep_going,
            final(self).batches() == old(self).batches(),
            final(self).discarded() == old(self).discarded(),
            keep_going ==> final(self).pending() == old(self).pending().push(next->Line_0)
                && final(self).appended() == old(self).appended().push(next->Line_0),
            !keep_going ==> final(self).pending() == old(self).pending()
                && final(self).appended() == old(self).appended(),
    {
        if !matches!(self.status, CollectorStatus::Running) {
            return false;
        }
        match next {
            NextLine::Line(e) => {
                let ghost g = e;
                self.events.push(e);
                self.appended = Ghost(self.appended@.push(g));
                assert(self.removed@ + self.events@ =~= self.appended@);
                true
            },
            NextLine::Ended => {
                self.status = CollectorStatus::Ended;
                false
            },
            NextLine::Failed(m) => {
                self.status = CollectorStatus::Failed(m);
                false
            },
        }
    }

    /// Hands out everything that is buffered as one batch.
    fn take_batch(&mut self) -> (r: Vec<LineEvent>)
        requires
            old(self).wf(),
        ensures
            final(self).wf(),
            r@ == old(self).pending(),
            final(self).pending() == Seq::<LineEvent>::empty(),
            final(self).appended() == old(self).appended(),
            final(self).batches() == old(self).batches().push(old(self).pending()),
            final(self).discarded() == old(self).discarded(),
            final(self).stopped() == old(self).stopped(),
    {
        let mut out: Vec<LineEvent> = Vec::new();
        std::mem::swap(&mut self.events, &mut out);
        let ghost batch = out@;
        self.removed = Ghost(self.removed@ + batch);
        let ghost before = self.batches@;
        self.batches = Ghost(self.batches@.push(batch));
        assert(self.batches@.drop_last() =~= before);
        assert(self.removed@ + self.events@ =~= self.appended@);
        out
    }

    /// Drops everything that is buffered.
    pub fn clear(&mut self)
        requires
            old(self).wf(),
        ensures
            final(self).wf(),
            final(self).pending() == Seq::<LineEvent>::empty(),
            final(self).appended() == old(self).appended(),
            final(self).batches() == old(self).batches(),
            final(self).discarded() == old(self).discarded() + old(self).pending(),
            final(self).stopped() == old(self).stopped(),
    {
        let ghost gone = self.events@;
        self.events.clear();
        self.removed = Ghost(self.removed@ + gone);
        self.discarded = Ghost(self.discarded@ + gone);
        assert(self.removed@ + self.events@ =~= self.appended@);
        assert(gone.len() == 0 ==> self.removed@ =~= old(self).removed@);
    }

    /// One tick of a poll: measures the buffer and decides, under one
    /// borrow, so that no line can slip in between. A complete batch is
    /// handed out; a timeout or an interruption drops what is buffered; while
    /// the poll waits the buffer is left as it is. An empty buffer whose
    /// collector has stopped ends the poll, unless the caller was interrupted.
    pub fn tick(&mut self, state: &PollState, debounce_ms: u64, cancelled: bool, now: u64) -> (r:
        PollOutcome)
        requires
            old(self).wf(),
        ensures
            final(self).wf(),
            final(self).appended() == old(self).appended(),
            final(self).stopped() == old(self).stopped(),
            cancelled ==> r is Cancelled && final(self).pending().len() == 0,
            (!cancelled && old(self).pending().len() == 0 && old(self).stopped()) ==> {
                &&& r is CollectorStopped
                &&& final(self).pending() == old(self).pending()
                &&& final(self).batches() == old(self).batches()
                &&& final(self).discarded() == old(self).discarded()
            },
            !(!cancelled && old(self).pending().len() == 0 && old(self).stopped()) ==> match next_decision(
                *state,
                debounce_ms,
                observe(old(self), cancelled, now),
            ) {
                Decision::Wait(t) => {
                    &&& r == PollOutcome::Pending(t)
                    &&& final(self).pending() == old(self).pending()
                    &&& final(self).batches() == old(self).batches()
                    &&& final(self).discarded() == old(self).discarded()
                },
                Decision::Flush => {
                    &&& r is Lines
                    &&& r->Lines_0@ == old(self).pending()
                    &&& final(self).pending().len() == 0
                    &&& final(self).batches() == old(self).batches().push(old(self).pending())
                    &&& final(self).discarded() == old(self).discarded()
                },
                Decision::Timeout => {
                    &&& r is Timeout
                    &&& final(self).pending().len() == 0
                    &&& final(self).batches() == old(self).batches()
                    &&& final(self).discarded() == old(self).discarded() + old(self).pending()
                },
                Decision::Cancelled => {
                    &&& r is Cancelled
                    &&& final(self).pending().len() == 0
                    &&& final(self).batches() == old(self).batches()
                    &&& final(self).discarded() == old(self).discarded() + old(self).pending()
                },
            },
    {
        let size = self.events.len();
        if !cancelled && size == 0 && !matches!(self.status, CollectorStatus::Running) {
            return PollOutcome::CollectorStopped;
        }
        match state.decide(debounce_ms, Observation { cancelled, size, now }) {
            Decision::Wait(t) => PollOutcome::Pending(t),
            Decision::Flush => PollOutcome::Lines(self.take_batch()),
            Decision::Timeout => {
                self.clear();
                PollOutcome::Timeout
            },
            Decision::Cancelled => {
                self.clear();
                PollOutcome::Cancelled
            },
        }
    }
}

/// While no line has been dropped, every line that was collected has been
/// handed out in exactly one batch or is still waiting, in the order of
/// collection, and so in the order of each file.
pub proof fn lemma_each_line_delivered_once(b: &LineBuffer, path: Seq<char>)
    requires
        b.wf(),
        b.discarded().len() == 0,
    ensures
        b.appended() == b.delivered() + b.pending(),
        b.appended().filter(from_source(path)) == b.delivered().filter(from_source(path))
            + b.pending().filter(from_source(path)),
{
    Seq::filter_distributes_over_add(b.delivered(), b.pending(), from_source(path));
}

} // verus!
