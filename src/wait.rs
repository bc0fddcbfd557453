//! The decisions of a blocking wait on an asynchronous computation: a
//! deadline fixed once at the start, and after each poll whether to return
//! or to park the thread, and for how long. Times are nanoseconds on a
//! monotonic clock.
use vstd::prelude::*;

verus! {

/// Why a blocking wait gave no value.
pub enum Waited<E> {
    /// The deadline passed first.
    TimedOut,
    /// The computation itself failed.
    Failed(E),
}

impl<E> From<E> for Waited<E> {
    fn from(err: E) -> (r: Waited<E>)
        ensures
            r == Waited::<E>::Failed(err),
    {
        Waited::Failed(err)
    }
}

impl<E> vstd::std_specs::convert::FromSpecImpl<E> for Waited<E> {
    open spec fn obeys_from_spec() -> bool {
        true
    }

    open spec fn from_spec(v: E) -> Waited<E> {
        Waited::Failed(v)
    }
}

/// What one poll of the computation gave.
pub enum Polled<T> {
    Ready(T),
    Pending,
}

/// What the waiting thread does next.
pub enum WaitStep<T> {
    /// Return this.
    Finish(T),
    /// Park until woken, or for at most this many nanoseconds.
    Park(Option<u64>),
}

/// The instant after which a wait is abandoned, if any.
pub struct Deadline {
    pub at: Option<u64>,
}

/// Whether the clock reading `now` is at or past the deadline.
pub open spec fn expired_at(at: Option<u64>, now: u64) -> bool {
    match at {
        Some(d) => now >= d,
        None => false,
    }
}

/// How long to park after a pending poll at `now`.
pub open spec fn park_for(at: Option<u64>, now: u64) -> Option<u64> {
    match at {
        Some(d) => Some((d - now) as u64),
        None => None,
    }
}

/// The step after polling a computation at `now`, before the deadline.
pub open spec fn future_step<T, E>(at: Option<u64>, now: u64, polled: Polled<Result<T, E>>) -> WaitStep<Result<T, Waited<E>>> {
    match polled {
        Polled::Ready(Ok(v)) => WaitStep::Finish(Ok(v)),
        Polled::Ready(Err(e)) => WaitStep::Finish(Err(Waited::Failed(e))),
        Polled::Pending => WaitStep::Park(park_for(at, now)),
    }
}

/// The step after polling a sequence for its next item at `now`, before
/// the deadline.
pub open spec fn stream_step<T, E>(at: Option<u64>, now: u64, polled: Polled<Result<Option<T>, E>>) -> WaitStep<Option<Result<T, Waited<E>>>> {
    match polled {
        Polled::Ready(Ok(Some(v))) => WaitStep::Finish(Some(Ok(v))),
        Polled::Ready(Ok(None)) => WaitStep::Finish(None),
        Polled::Ready(Err(e)) => WaitStep::Finish(Some(Err(Waited::Failed(e)))),
        Polled::Pending => WaitStep::Park(park_for(at, now)),
    }
}

/// What a whole wait returns, given the clock reading taken before each
/// poll and what that poll gave: the first reading at or past the deadline
/// ends it with a timeout, else the first ready poll ends it with its
/// result. `None` while neither has happened.
pub open spec fn wait_outcome<T, E>(at: Option<u64>, rounds: Seq<(u64, Polled<Result<T, E>>)>) -> Option<Result<T, Waited<E>>>
    decreases rounds.len(),
{
    if rounds.len() == 0 {
        None
    } else if expired_at(at, rounds[0].0) {
        Some(Err(Waited::TimedOut))
    } else {
        match rounds[0].1 {
            Polled::Ready(Ok(v)) => Some(Ok(v)),
            Polled::Ready(Err(e)) => Some(Err(Waited::Failed(e))),
            Polled::Pending => wait_outcome(at, rounds.drop_first()),
        }
    }
}

/// The result of the first ready poll, if any.
pub open spec fn first_ready<T, E>(polls: Seq<Polled<Result<T, E>>>) -> Option<Result<T, E>>
    decreases polls.len(),
{
    if polls.len() == 0 {
        None
    } else {
        match polls[0] {
            Polled::Ready(r) => Some(r),
            Polled::Pending => first_ready(polls.drop_first()),
        }
    }
}

impl Deadline {
    /// The deadline of a wait that starts at `start` and may last `timeout`
    /// nanoseconds; none without a timeout.
    pub fn new(start: u64, timeout: Option<u64>) -> (r: Deadline)
        requires
            timeout matches Some(t) ==> start + t <= u64::MAX,
        ensures
            r.at == match timeout {
                Some(t) => Some((start + t) as u64),
                None => None,
            },
    {
        match timeout {
            Some(t) => Deadline { at: Some(start + t) },
            None => Deadline { at: None },
        }
    }

    /// Whether the clock reading `now` is at or past the deadline: the wait
    /// then ends with a timeout, without polling again.
    pub fn expired(&self, now: u64) -> (r: bool)
        ensures
            r == expired_at(self.at, now),
    {
        match self.at {
            Some(d) => now >= d,
            None => false,
        }
    }

    /// After a poll of a computation, with `now` read before the deadline:
    /// its value or its failure is returned, else the thread parks until
    /// woken or until the deadline.
    pub fn step<T, E>(&self, now: u64, polled: Polled<Result<T, E>>) -> (r: WaitStep<Result<T, Waited<E>>>)
        requires
            !expired_at(self.at, now),
        ensures
            r == future_step(self.at, now, polled),
    {
        match polled {
            Polled::Ready(Ok(v)) => WaitStep::Finish(Ok(v)),
            Polled::Ready(Err(e)) => WaitStep::Finish(Err(Waited::Failed(e))),
            Polled::Pending => WaitStep::Park(self.remaining(now)),
        }
    }

    /// After a poll of a sequence for its next item, with `now` read before
    /// the deadline: the item, the end or the failure is returned, else the
    /// thread parks until woken or until the deadline.
    pub fn step_stream<T, E>(&self, now: u64, polled: Polled<Result<Option<T>, E>>) -> (r: WaitStep<Option<Result<T, Waited<E>>>>)
        requires
            !expired_at(self.at, now),
        ensures
            r == stream_step(self.at, now, polled),
    {
        match polled {
            Polled::Ready(Ok(Some(v))) => WaitStep::Finish(Some(Ok(v))),
            Polled::Ready(Ok(None)) => WaitStep::Finish(None),
            Polled::Ready(Err(e)) => WaitStep::Finish(Some(Err(Waited::Failed(e)))),
            Polled::Pending => WaitStep::Park(self.remaining(now)),
        }
    }

    fn remaining(&self, now: u64) -> (r: Option<u64>)
        requires
            !expired_at(self.at, now),
        ensures
            r == park_for(self.at, now),
    {
        match self.at {
            Some(d) => Some(d - now),
            None => None,
        }
    }
}

/// Without a deadline a wait never times out: it returns exactly what the
/// first ready poll gave, value or failure.
pub proof fn lemma_no_deadline_returns_result<T, E>(rounds: Seq<(u64, Polled<Result<T, E>>)>)
    ensures
        wait_outcome(None, rounds) == match first_ready(rounds.map_values(|p: (u64, Polled<Result<T, E>>)| p.1)) {
            Some(Ok(v)) => Some(Ok(v)),
            Some(Err(e)) => Some(Err(Waited::Failed(e))),
            None => None::<Result<T, Waited<E>>>,
        },
    decreases rounds.len(),
{
    let polls = rounds.map_values(|p: (u64, Polled<Result<T, E>>)| p.1);
    if rounds.len() > 0 {
        lemma_no_deadline_returns_result(rounds.drop_first());
        assert(rounds.drop_first().map_values(|p: (u64, Polled<Result<T, E>>)| p.1) =~= polls.drop_first());
    }
}

/// When the clock reaches the deadline before any poll is ready, the wait
/// ends with a timeout, never with a value or a failure.
pub proof fn lemma_deadline_first_times_out<T, E>(d: u64, rounds: Seq<(u64, Polled<Result<T, E>>)>, k: int)
    requires
        0 <= k < rounds.len(),
        rounds[k].0 >= d,
        forall|i: int| 0 <= i < k ==> #[trigger] rounds[i].1 is Pending,
    ensures
        wait_outcome(Some(d), rounds) == Some(Err::<T, Waited<E>>(Waited::TimedOut)),
    decreases k,
{
    if !expired_at(Some(d), rounds[0].0) {
        assert(k > 0);
        assert(rounds[0].1 is Pending);
        let rest = rounds.drop_first();
        assert forall|i: int| 0 <= i < k - 1 implies #[trigger] rest[i].1 is Pending by {
            assert(rest[i] == rounds[i + 1]);
        };
        lemma_deadline_first_times_out(d, rest, k - 1);
    }
}

} // verus!
