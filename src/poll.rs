//! The debounce state machine that decides, tick by tick, when a batch of
//! collected lines is complete.
use vstd::prelude::*;

verus! {

/// The three timing parameters of one poll, in milliseconds.
/// A `timeout_ms` of zero means that the poll waits for data without limit.
#[derive(Clone, Copy, Debug)]
pub struct PollConfig {
    pub debounce_ms: u64,
    pub step_ms: u64,
    pub timeout_ms: u64,
}

/// What one poll remembers between its ticks. Times are milliseconds on a
/// monotonic clock chosen by the caller.
#[derive(Clone, Copy, Debug)]
pub struct PollState {
    pub last_size: usize,
    pub debounce_deadline: Option<u64>,
    pub timeout_deadline: Option<u64>,
}

/// What a tick sees: whether the caller was interrupted, how many lines the
/// buffer holds, and the time.
#[derive(Clone, Copy, Debug)]
pub struct Observation {
    pub cancelled: bool,
    pub size: usize,
    pub now: u64,
}

/// The verdict of one tick.
#[derive(Clone, Copy, Debug)]
pub enum Decision {
    /// Keep polling with this state.
    Wait(PollState),
    /// The batch is complete: hand out everything that is buffered.
    Flush,
    /// Nothing arrived in time: clear the buffer and report a timeout.
    Timeout,
    /// The caller was interrupted: clear the buffer and report it.
    Cancelled,
}

/// `now + ms`, held at the largest time when it does not fit: a deadline
/// that lies beyond every representable time never expires.
pub open spec fn deadline_after(now: u64, ms: u64) -> u64 {
    if now + ms <= u64::MAX {
        (now + ms) as u64
    } else {
        u64::MAX
    }
}

/// Whether a deadline is set and `now` lies strictly after it.
pub open spec fn expired(deadline: Option<u64>, now: u64) -> bool {
    match deadline {
        Some(d) => now > d,
        None => false,
    }
}

/// The state in which a poll that starts at `now` begins.
pub open spec fn initial_state(cfg: PollConfig, now: u64) -> PollState {
    PollState {
        last_size: 0,
        debounce_deadline: None,
        timeout_deadline: if cfg.timeout_ms == 0 {
            None
        } else {
            Some(deadline_after(now, cfg.timeout_ms))
        },
    }
}

/// One tick of the poll. Cancellation wins; a count that did not change since
/// the last tick ends the batch; growth past the debounce deadline ends it too;
/// the first growth starts the debounce window; an empty buffer past the
/// timeout deadline times out.
pub open spec fn next_decision(s: PollState, debounce_ms: u64, o: Observation) -> Decision {
    if o.cancelled {
        Decision::Cancelled
    } else if o.size > 0 {
        if o.size == s.last_size {
            Decision::Flush
        } else if expired(s.debounce_deadline, o.now) {
            Decision::Flush
        } else if s.debounce_deadline is Some {
            Decision::Wait(PollState { last_size: o.size, ..s })
        } else {
            Decision::Wait(
                PollState {
                    last_size: o.size,
                    debounce_deadline: Some(deadline_after(o.now, debounce_ms)),
                    ..s
                },
            )
        }
    } else if expired(s.timeout_deadline, o.now) {
        Decision::Timeout
    } else {
        Decision::Wait(s)
    }
}

/// The verdict after a sequence of ticks: the first verdict that is not
/// `Wait`, or the state in which the last tick left the poll.
pub open spec fn run(s: PollState, debounce_ms: u64, obs: Seq<Observation>) -> Decision
    decreases obs.len(),
{
    if obs.len() == 0 {
        Decision::Wait(s)
    } else {
        match run(s, debounce_ms, obs.drop_last()) {
            Decision::Wait(t) => next_decision(t, debounce_ms, obs.last()),
            d => d,
        }
    }
}

fn deadline_from(now: u64, ms: u64) -> (r: u64)
    ensures
        r == deadline_after(now, ms),
{
    now.saturating_add(ms)
}

fn has_expired(deadline: Option<u64>, now: u64) -> (r: bool)
    ensures
        r == expired(deadline, now),
{
    match deadline {
        Some(d) => now > d,
        None => false,
    }
}

impl PollState {
    /// The state of a poll that starts at `now`.
    pub fn start(cfg: &PollConfig, now: u64) -> (r: PollState)
        ensures
            r == initial_state(*cfg, now),
    {
        let timeout_deadline = if cfg.timeout_ms == 0 {
            None
        } else {
            Some(deadline_from(now, cfg.timeout_ms))
        };
        PollState { last_size: 0, debounce_deadline: None, timeout_deadline }
    }

    /// Decides one tick.
    pub fn decide(&self, debounce_ms: u64, o: Observation) -> (r: Decision)
        ensures
            r == next_decision(*self, debounce_ms, o),
            o.cancelled ==> r is Cancelled,
    {
        if o.cancelled {
            Decision::Cancelled
        } else if o.size > 0 {
            if o.size == self.last_size {
                Decision::Flush
            } else if has_expired(self.debounce_deadline, o.now) {
                Decision::Flush
            } else {
                match self.debounce_deadline {
                    Some(_) => Decision::Wait(PollState { last_size: o.size, ..*self }),
                    None => Decision::Wait(
                        PollState {
                            last_size: o.size,
                            debounce_deadline: Some(deadline_from(o.now, debounce_ms)),
                            ..*self
                        },
                    ),
                }
            }
        } else if has_expired(self.timeout_deadline, o.now) {
            Decision::Timeout
        } else {
            Decision::Wait(*self)
        }
    }
}

/// Ticks that see an empty buffer and no interruption leave a poll's state
/// as it is: a poll that has seen no data keeps waiting until a tick comes
/// after its idle deadline, and waits for ever when its timeout is zero.
pub proof fn lemma_idle_keeps_waiting(cfg: PollConfig, t0: u64, debounce_ms: u64, obs: Seq<Observation>)
    requires
        forall|i: int|
            0 <= i < obs.len() ==> {
                &&& !(#[trigger] obs[i]).cancelled
                &&& obs[i].size == 0
                &&& (cfg.timeout_ms == 0 || obs[i].now <= t0 + cfg.timeout_ms)
            },
    ensures
        run(initial_state(cfg, t0), debounce_ms, obs) == Decision::Wait(initial_state(cfg, t0)),
    decreases obs.len(),
{
    if obs.len() > 0 {
        let prefix = obs.drop_last();
        assert forall|i: int| 0 <= i < prefix.len() implies {
            &&& !(#[trigger] prefix[i]).cancelled
            &&& prefix[i].size == 0
            &&& (cfg.timeout_ms == 0 || prefix[i].now <= t0 + cfg.timeout_ms)
        } by {
            assert(prefix[i] == obs[i]);
        }
        lemma_idle_keeps_waiting(cfg, t0, debounce_ms, prefix);
        assert(obs.last() == obs[obs.len() - 1]);
    }
}

/// A poll with a non-zero timeout that sees no data times out at the first
/// tick after `t0 + timeout_ms`; when ticks come at most `step_ms` apart from
/// the start, that tick comes no later than `t0 + timeout_ms + step_ms`.
pub proof fn lemma_idle_times_out(cfg: PollConfig, t0: u64, debounce_ms: u64, obs: Seq<Observation>)
    requires
        cfg.timeout_ms != 0,
        obs.len() > 0,
        forall|i: int|
            0 <= i < obs.len() ==> !(#[trigger] obs[i]).cancelled && obs[i].size == 0,
        forall|i: int| 0 <= i < obs.len() - 1 ==> (#[trigger] obs[i]).now <= t0 + cfg.timeout_ms,
        obs.last().now > t0 + cfg.timeout_ms,
    ensures
        run(initial_state(cfg, t0), debounce_ms, obs) is Timeout,
        (obs[0].now <= t0 + cfg.step_ms && forall|i: int|
            0 <= i < obs.len() - 1 ==> #[trigger] obs[i + 1].now <= obs[i].now + cfg.step_ms)
            ==> obs.last().now <= t0 + cfg.timeout_ms + cfg.step_ms,
{
    let prefix = obs.drop_last();
    assert forall|i: int| 0 <= i < prefix.len() implies {
        &&& !(#[trigger] prefix[i]).cancelled
        &&& prefix[i].size == 0
        &&& (cfg.timeout_ms == 0 || prefix[i].now <= t0 + cfg.timeout_ms)
    } by {
        assert(prefix[i] == obs[i]);
    }
    lemma_idle_keeps_waiting(cfg, t0, debounce_ms, prefix);
    assert(obs.last() == obs[obs.len() - 1]);
    if obs[0].now <= t0 + cfg.step_ms && forall|i: int|
        0 <= i < obs.len() - 1 ==> #[trigger] obs[i + 1].now <= obs[i].now + cfg.step_ms {
        if obs.len() > 1 {
            let k = obs.len() - 2;
            assert(obs[k].now <= t0 + cfg.timeout_ms);
            assert(obs[k + 1].now <= obs[k].now + cfg.step_ms);
        }
    }
}

/// Once a tick has seen data, a tick that sees the same positive count as the
/// tick before it ends the batch.
pub proof fn lemma_stable_count_flushes(
    s: PollState,
    debounce_ms: u64,
    obs: Seq<Observation>,
    first: Observation,
    second: Observation,
)
    requires
        run(s, debounce_ms, obs) is Wait,
        !first.cancelled,
        !second.cancelled,
        first.size > 0,
        second.size == first.size,
    ensures
        run(s, debounce_ms, obs.push(first).push(second)) is Flush,
{
    lemma_run_push(s, debounce_ms, obs, first);
    lemma_run_push(s, debounce_ms, obs.push(first), second);
}

/// While the buffer is non-empty, the debounce deadline that a poll has set
/// stays as it was, so every tick after it ends the batch.
proof fn lemma_growth_keeps_deadline(s: PollState, debounce_ms: u64, obs: Seq<Observation>, d: u64)
    requires
        s.debounce_deadline == Some(d),
        forall|i: int|
            0 <= i < obs.len() ==> !(#[trigger] obs[i]).cancelled && obs[i].size > 0,
    ensures
        match run(s, debounce_ms, obs) {
            Decision::Wait(t) => t.debounce_deadline == Some(d),
            Decision::Flush => true,
            _ => false,
        },
    decreases obs.len(),
{
    if obs.len() > 0 {
        let prefix = obs.drop_last();
        assert forall|i: int| 0 <= i < prefix.len() implies !(#[trigger] prefix[i]).cancelled
            && prefix[i].size > 0 by {
            assert(prefix[i] == obs[i]);
        }
        lemma_growth_keeps_deadline(s, debounce_ms, prefix, d);
        assert(obs.last() == obs[obs.len() - 1]);
    }
}

/// From the first tick that sees data, a poll whose buffer stays non-empty
/// ends the batch at the latest at the first tick after
/// `debounce_ms` have passed; when ticks come at most `step_ms` apart,
/// that tick comes no later than `debounce_ms + step_ms` after the first.
pub proof fn lemma_growth_flushes_by_deadline(
    s: PollState,
    debounce_ms: u64,
    step_ms: u64,
    obs: Seq<Observation>,
)
    requires
        s.debounce_deadline is None,
        obs.len() > 0,
        forall|i: int|
            0 <= i < obs.len() ==> !(#[trigger] obs[i]).cancelled && obs[i].size > 0,
        forall|i: int| 0 <= i < obs.len() - 1 ==> (#[trigger] obs[i]).now <= obs[0].now + debounce_ms,
        obs.last().now > obs[0].now + debounce_ms,
    ensures
        run(s, debounce_ms, obs) is Flush,
        (forall|i: int|
            0 <= i < obs.len() - 1 ==> #[trigger] obs[i + 1].now <= obs[i].now + step_ms)
            ==> obs.last().now <= obs[0].now + debounce_ms + step_ms,
{
    let first = seq![obs[0]];
    assert(first =~= Seq::<Observation>::empty().push(obs[0]));
    lemma_run_push(s, debounce_ms, Seq::<Observation>::empty(), obs[0]);
    if obs.len() == 1 {
        assert(obs =~= first);
    } else {
        let d = deadline_after(obs[0].now, debounce_ms);
        match next_decision(s, debounce_ms, obs[0]) {
            Decision::Wait(t) => {
                let middle = obs.subrange(1, obs.len() - 1);
                assert forall|i: int| 0 <= i < middle.len() implies !(#[trigger] middle[i]).cancelled
                    && middle[i].size > 0 by {
                    assert(middle[i] == obs[i + 1]);
                }
                lemma_growth_keeps_deadline(t, debounce_ms, middle, d);
                lemma_run_split(s, debounce_ms, first, middle);
                assert(first + middle =~= obs.drop_last());
                lemma_run_push(s, debounce_ms, obs.drop_last(), obs.last());
                assert(obs.drop_last().push(obs.last()) =~= obs);
                let k = obs.len() - 2;
                assert(obs[k].now <= obs[0].now + debounce_ms);
                if forall|i: int|
                    0 <= i < obs.len() - 1 ==> #[trigger] obs[i + 1].now <= obs[i].now + step_ms {
                    assert(obs[k + 1].now <= obs[k].now + step_ms);
                }
            },
            _ => {
                lemma_run_stops(s, debounce_ms, first, obs.subrange(1, obs.len() as int));
                assert(first + obs.subrange(1, obs.len() as int) =~= obs);
            },
        }
    }
}

/// Running two sequences of ticks one after the other.
proof fn lemma_run_split(s: PollState, debounce_ms: u64, a: Seq<Observation>, b: Seq<Observation>)
    requires
        run(s, debounce_ms, a) is Wait,
    ensures
        run(s, debounce_ms, a + b) == run(run(s, debounce_ms, a)->Wait_0, debounce_ms, b),
    decreases b.len(),
{
    if b.len() == 0 {
        assert(a + b =~= a);
    } else {
        lemma_run_split(s, debounce_ms, a, b.drop_last());
        assert((a + b).drop_last() =~= a + b.drop_last());
        assert((a + b).last() == b.last());
    }
}

/// A verdict other than `Wait` is final: later ticks do not change it.
proof fn lemma_run_stops(s: PollState, debounce_ms: u64, a: Seq<Observation>, b: Seq<Observation>)
    requires
        !(run(s, debounce_ms, a) is Wait),
    ensures
        run(s, debounce_ms, a + b) == run(s, debounce_ms, a),
    decreases b.len(),
{
    if b.len() == 0 {
        assert(a + b =~= a);
    } else {
        lemma_run_stops(s, debounce_ms, a, b.drop_last());
        assert((a + b).drop_last() =~= a + b.drop_last());
    }
}

/// With a zero debounce window, the tick after the first one that sees data
/// ends the batch, whether the count grew in between or not.
pub proof fn lemma_zero_debounce_flushes_next_tick(
    s: PollState,
    first: Observation,
    second: Observation,
)
    requires
        s.debounce_deadline is None,
        !first.cancelled,
        !second.cancelled,
        first.size > 0,
        second.size > 0,
        second.now > first.now,
    ensures
        run(s, 0, seq![first, second]) is Flush,
{
    let none = Seq::<Observation>::empty();
    lemma_run_push(s, 0, none, first);
    lemma_run_push(s, 0, none.push(first), second);
    assert(none.push(first).push(second) =~= seq![first, second]);
}

/// A tick that sees an interruption ends the poll with `Cancelled`, whatever
/// came before it, unless the poll had already ended.
pub proof fn lemma_cancel_wins(s: PollState, debounce_ms: u64, obs: Seq<Observation>, o: Observation)
    requires
        run(s, debounce_ms, obs) is Wait,
        o.cancelled,
    ensures
        run(s, debounce_ms, obs.push(o)) is Cancelled,
{
    lemma_run_push(s, debounce_ms, obs, o);
}

/// One more tick after a sequence of ticks.
proof fn lemma_run_push(s: PollState, debounce_ms: u64, obs: Seq<Observation>, o: Observation)
    ensures
        run(s, debounce_ms, obs.push(o)) == match run(s, debounce_ms, obs) {
            Decision::Wait(t) => next_decision(t, debounce_ms, o),
            d => d,
        },
{
    assert(obs.push(o).drop_last() =~= obs);
    assert(obs.push(o).last() == o);
}

} // verus!
