//! The long-running-operation poller: a state machine that drives an
//! operation to its terminal status under an overall deadline, with capped
//! exponential backoff plus jitter between polls and a bounded budget of
//! transport retries.
//!
//! The machine is pure: the runner issues one wait request per step and
//! hands the outcome in as a [`PollEvent`]; the machine answers with the
//! next state and either a delay to sleep before the next request or a
//! settled verdict.

use vstd::prelude::*;
use vstd::arithmetic::div_mod::lemma_mod_bound;

use crate::errors::LroError;
use crate::operation::{Operation, OperationStatus};

verus! {

/// The poller's fixed parameters. Delays and the deadline are measured in
/// the same time unit (the runner picks it, e.g. milliseconds).
#[derive(Clone, Copy, Debug, PartialEq, Eq, Structural)]
pub struct PollConfig {
    /// Total delay budget: once this much delay has accumulated, a
    /// non-terminal response settles the poll with `Timeout`.
    pub deadline: u64,
    /// First inter-poll delay; doubled per attempt.
    pub base_delay: u64,
    /// Cap on the exponential backoff.
    pub max_delay: u64,
    /// How many transport failures are retried before giving up.
    pub max_transport_retries: u32,
}

impl PollConfig {
    /// Sane polling parameters: a positive base no greater than the cap,
    /// with the cap small enough that a delay plus jitter always fits.
    pub open spec fn wf(self) -> bool {
        &&& 1 <= self.base_delay <= self.max_delay
        &&& self.max_delay <= 0x7fff_ffff_ffff_ffff
    }
}

/// The poller's mutable state.
#[derive(Clone, Copy, Debug, PartialEq, Eq, Structural)]
pub struct PollState {
    /// Delay accumulated so far, capped at the deadline.
    pub elapsed: u64,
    /// Poll attempts continued so far; drives the backoff exponent.
    pub attempts: u64,
    /// Transport failures retried so far.
    pub transport_failures: u32,
}

impl PollState {
    /// Each continued attempt accumulates at least one unit of delay, the
    /// accumulated delay never passes the deadline, and transport retries
    /// stay within their budget.
    pub open spec fn wf(self, cfg: PollConfig) -> bool {
        &&& self.attempts <= self.elapsed
        &&& self.elapsed <= cfg.deadline
        &&& self.transport_failures <= cfg.max_transport_retries
    }
}

/// The state a poll starts from.
pub open spec fn spec_init_state() -> PollState {
    PollState { elapsed: 0, attempts: 0, transport_failures: 0 }
}

/// The state a poll starts from.
pub fn init_state() -> (r: PollState)
    ensures
        r == spec_init_state(),
{
    PollState { elapsed: 0, attempts: 0, transport_failures: 0 }
}

/// The outcome of one wait request, as the runner observed it.
#[derive(Clone, Debug, PartialEq)]
pub enum PollEvent {
    /// The endpoint answered with an operation snapshot.
    Response(Operation),
    /// The request failed at the network or HTTP layer.
    TransportFailure,
    /// The response body did not decode as an operation.
    DecodeFailure,
}

/// What the poller decides after one event.
#[derive(Debug, PartialEq)]
pub enum PollVerdict {
    /// Sleep for `delay`, then issue the next wait request.
    Proceed { delay: u64 },
    /// The poll is over: the terminal snapshot, or the error to surface.
    Settled(Result<Operation, LroError>),
}

/// Exponential backoff: the base delay doubled once per prior attempt,
/// capped.
pub open spec fn spec_exp_backoff(base: u64, cap: u64, attempts: u64) -> int
    decreases attempts,
{
    if attempts == 0 {
        if base <= cap {
            base as int
        } else {
            cap as int
        }
    } else {
        let p = spec_exp_backoff(base, cap, (attempts - 1) as u64);
        if 2 * p <= cap {
            2 * p
        } else {
            cap as int
        }
    }
}

/// The full inter-poll delay: the capped exponential backoff plus a jitter
/// drawn modulo one more than the backoff, so jitter never dominates.
pub open spec fn spec_backoff_delay(cfg: PollConfig, attempts: u64, jitter: u64) -> int {
    spec_exp_backoff(cfg.base_delay, cfg.max_delay, attempts) + jitter as int % (spec_exp_backoff(
        cfg.base_delay,
        cfg.max_delay,
        attempts,
    ) + 1)
}

proof fn lemma_exp_backoff_bounds(base: u64, cap: u64, attempts: u64)
    requires
        1 <= base <= cap,
    ensures
        1 <= spec_exp_backoff(base, cap, attempts) <= cap,
    decreases attempts,
{
    if attempts > 0 {
        lemma_exp_backoff_bounds(base, cap, (attempts - 1) as u64);
    }
}

/// The inter-poll delay is positive and at most twice the backoff cap.
pub proof fn lemma_backoff_delay_bounds(cfg: PollConfig, attempts: u64, jitter: u64)
    requires
        cfg.wf(),
    ensures
        1 <= spec_backoff_delay(cfg, attempts, jitter) <= 2 * cfg.max_delay,
{
    lemma_exp_backoff_bounds(cfg.base_delay, cfg.max_delay, attempts);
    lemma_mod_bound(
        jitter as int,
        spec_exp_backoff(cfg.base_delay, cfg.max_delay, attempts) + 1,
    );
}

/// Computes the jittered, capped exponential backoff delay.
pub fn backoff_delay(cfg: &PollConfig, attempts: u64, jitter: u64) -> (r: u64)
    requires
        cfg.wf(),
    ensures
        r == spec_backoff_delay(*cfg, attempts, jitter),
        1 <= r <= 2 * cfg.max_delay,
{
    let mut d: u64 = cfg.base_delay;
    let mut k: u64 = 0;
    while k < attempts
        invariant
            cfg.wf(),
            k <= attempts,
            d == spec_exp_backoff(cfg.base_delay, cfg.max_delay, k),
            1 <= d <= cfg.max_delay,
        decreases attempts - k,
    {
        if d <= cfg.max_delay / 2 {
            d = 2 * d;
        } else {
            d = cfg.max_delay;
        }
        k += 1;
    }
    proof {
        lemma_mod_bound(jitter as int, d as int + 1);
    }
    let j = jitter % (d + 1);
    d + j
}

/// One poller transition: what the poller decides upon one event.
pub open spec fn spec_poll_step(cfg: PollConfig, st: PollState, ev: PollEvent, jitter: u64) -> (
    PollState,
    PollVerdict,
) {
    match ev {
        PollEvent::Response(op) => {
            if op.status == OperationStatus::Done {
                (st, PollVerdict::Settled(Ok(op)))
            } else if st.elapsed >= cfg.deadline {
                (st, PollVerdict::Settled(Err(LroError::Timeout)))
            } else {
                let delay = spec_backoff_delay(cfg, st.attempts, jitter);
                let e2 = if st.elapsed + delay >= cfg.deadline {
                    cfg.deadline
                } else {
                    (st.elapsed + delay) as u64
                };
                (
                    PollState {
                        elapsed: e2,
                        attempts: (st.attempts + 1) as u64,
                        transport_failures: st.transport_failures,
                    },
                    PollVerdict::Proceed { delay: delay as u64 },
                )
            }
        },
        PollEvent::TransportFailure => {
            if st.transport_failures >= cfg.max_transport_retries {
                (st, PollVerdict::Settled(Err(LroError::TransportError)))
            } else if st.elapsed >= cfg.deadline {
                (st, PollVerdict::Settled(Err(LroError::Timeout)))
            } else {
                let delay = spec_backoff_delay(cfg, st.attempts, jitter);
                let e2 = if st.elapsed + delay >= cfg.deadline {
                    cfg.deadline
                } else {
                    (st.elapsed + delay) as u64
                };
                (
                    PollState {
                        elapsed: e2,
                        attempts: (st.attempts + 1) as u64,
                        transport_failures: (st.transport_failures + 1) as u32,
                    },
                    PollVerdict::Proceed { delay: delay as u64 },
                )
            }
        },
        PollEvent::DecodeFailure => (st, PollVerdict::Settled(Err(LroError::DecodeError))),
    }
}

/// Decides the poller's next move from one wait-request outcome: hand the
/// snapshot back when it is terminal, fail on a decode error, give up on a
/// transport error past the retry budget, time out once the deadline has
/// elapsed, and otherwise proceed after a capped, jittered backoff delay.
pub fn poll_step(cfg: &PollConfig, st: PollState, ev: PollEvent, jitter: u64) -> (r: (
    PollState,
    PollVerdict,
))
    requires
        cfg.wf(),
        st.wf(*cfg),
    ensures
        r == spec_poll_step(*cfg, st, ev, jitter),
        r.0.wf(*cfg),
{
    match ev {
        PollEvent::Response(op) => {
            if op.status == OperationStatus::Done {
                (st, PollVerdict::Settled(Ok(op)))
            } else if st.elapsed >= cfg.deadline {
                (st, PollVerdict::Settled(Err(LroError::Timeout)))
            } else {
                let delay = backoff_delay(cfg, st.attempts, jitter);
                let e2 = if delay >= cfg.deadline - st.elapsed {
                    cfg.deadline
                } else {
                    st.elapsed + delay
                };
                (
                    PollState {
                        elapsed: e2,
                        attempts: st.attempts + 1,
                        transport_failures: st.transport_failures,
                    },
                    PollVerdict::Proceed { delay },
                )
            }
        },
        PollEvent::TransportFailure => {
            if st.transport_failures >= cfg.max_transport_retries {
                (st, PollVerdict::Settled(Err(LroError::TransportError)))
            } else if st.elapsed >= cfg.deadline {
                (st, PollVerdict::Settled(Err(LroError::Timeout)))
            } else {
                let delay = backoff_delay(cfg, st.attempts, jitter);
                let e2 = if delay >= cfg.deadline - st.elapsed {
                    cfg.deadline
                } else {
                    st.elapsed + delay
                };
                (
                    PollState {
                        elapsed: e2,
                        attempts: st.attempts + 1,
                        transport_failures: st.transport_failures + 1,
                    },
                    PollVerdict::Proceed { delay },
                )
            }
        },
        PollEvent::DecodeFailure => (st, PollVerdict::Settled(Err(LroError::DecodeError))),
    }
}

/// The poller's verdict over a whole sequence of wait-request outcomes with
/// no jitter: the verdict of the first settling event together with how many
/// requests were issued and the final state, or no verdict with the state
/// after the whole sequence when it never settles.
pub open spec fn spec_poll_run(cfg: PollConfig, st: PollState, events: Seq<PollEvent>) -> (
    Option<Result<Operation, LroError>>,
    nat,
    PollState,
)
    decreases events.len(),
{
    if events.len() == 0 {
        (None, 0nat, st)
    } else {
        let stepped = spec_poll_step(cfg, st, events[0], 0);
        match stepped.1 {
            PollVerdict::Settled(out) => (Some(out), 1nat, stepped.0),
            PollVerdict::Proceed { delay: _ } => {
                let rest = spec_poll_run(cfg, stepped.0, events.skip(1));
                (rest.0, rest.1 + 1, rest.2)
            },
        }
    }
}

/// Drives the poller over a scripted sequence of wait-request outcomes, one
/// request per entry with no jitter: the verdict of the first settling
/// entry together with the number of requests issued, or `None` with the
/// full count when the script ends before the poller settles.
pub fn poll_script(cfg: &PollConfig, events: Vec<PollEvent>) -> (r: (
    Option<Result<Operation, LroError>>,
    usize,
))
    requires
        cfg.wf(),
    ensures
        ({
            let run = spec_poll_run(*cfg, spec_init_state(), events@);
            r.0 == run.0 && r.1 == run.1
        }),
{
    let ghost all_events = events@;
    let mut evs = events;
    let total: usize = evs.len();
    let mut st = init_state();
    let mut used: usize = 0;
    loop
        invariant
            cfg.wf(),
            st.wf(*cfg),
            all_events == events@,
            all_events.len() == total,
            used + evs@.len() == total,
            ({
                let here = spec_poll_run(*cfg, st, evs@);
                let whole = spec_poll_run(*cfg, spec_init_state(), all_events);
                whole.0 == here.0 && whole.1 == here.1 + used
            }),
        decreases evs@.len(),
    {
        if evs.len() == 0 {
            return (None, used);
        }
        let ghost before = evs@;
        let ev = evs.remove(0);
        proof {
            assert(evs@ =~= before.skip(1));
        }
        let stepped = poll_step(cfg, st, ev, 0);
        used = used + 1;
        match stepped.1 {
            PollVerdict::Settled(out) => {
                return (Some(out), used);
            },
            PollVerdict::Proceed { delay: _ } => {
                st = stepped.0;
            },
        }
    }
}

/// Law: polling an operation that is already terminal settles at once — a
/// single request, the same snapshot handed back, and no state change.
pub proof fn lemma_poll_done_idempotent(cfg: PollConfig, events: Seq<PollEvent>, op: Operation)
    requires
        events.len() > 0,
        events[0] == PollEvent::Response(op),
        op.status == OperationStatus::Done,
    ensures
        ({
            let run = spec_poll_run(cfg, spec_init_state(), events);
            run.0 == Some(Ok::<Operation, LroError>(op)) && run.1 == 1 && run.2
                == spec_init_state()
        }),
{
}

/// Law: against an endpoint that never reports the operation terminal, the
/// poller is never unbounded: each continued attempt consumes at least one
/// unit of the deadline budget, so the poll settles with `Timeout` within
/// one request more than the budget that remains.
pub proof fn lemma_all_pending_times_out(cfg: PollConfig, st: PollState, events: Seq<PollEvent>)
    requires
        cfg.wf(),
        st.wf(cfg),
        forall|i: int|
            0 <= i < events.len() ==> ((#[trigger] events[i]) matches PollEvent::Response(op)
                && op.status != OperationStatus::Done),
        events.len() > cfg.deadline - st.elapsed,
    ensures
        ({
            let run = spec_poll_run(cfg, st, events);
            run.0 == Some(Err::<Operation, LroError>(LroError::Timeout)) && run.1
                <= cfg.deadline - st.elapsed + 1
        }),
    decreases events.len(),
{
    assert(events[0] matches PollEvent::Response(op) && op.status != OperationStatus::Done);
    if st.elapsed < cfg.deadline {
        lemma_backoff_delay_bounds(cfg, st.attempts, 0);
        let stepped = spec_poll_step(cfg, st, events[0], 0);
        assert(stepped.0.elapsed >= st.elapsed + 1);
        assert(stepped.0.wf(cfg));
        assert forall|i: int| 0 <= i < events.skip(1).len() implies ((#[trigger] events.skip(
            1,
        )[i]) matches PollEvent::Response(op) && op.status != OperationStatus::Done) by {
            assert(events.skip(1)[i] == events[i + 1]);
        }
        lemma_all_pending_times_out(cfg, stepped.0, events.skip(1));
    }
}

} // verus!
