//! The worker runtime: how concurrency is split over workers, the shared
//! shutdown flag, and the decisions of one connection while it benchmarks.

use std::sync::atomic::{AtomicBool, Ordering};
use std::sync::Arc;

use vstd::arithmetic::div_mod::lemma_fundamental_div_mod;
use vstd::prelude::*;

use crate::RequestKey;

verus! {

/// The time a worker gives one connection attempt, in nanoseconds: 5 s.
pub const CONNECT_TIMEOUT: u64 = 5_000_000_000;

/// The number of connections that worker `worker_id` of `num_workers` holds when
/// `concurrency` connections are split evenly: the whole share, and one more
/// for each of the first workers until the remainder is used up.
pub open spec fn slots_of(worker_id: int, num_workers: int, concurrency: int) -> int {
    concurrency / num_workers + if worker_id < concurrency % num_workers {
        1int
    } else {
        0int
    }
}

/// The connections held by the first `count` workers together.
pub open spec fn slots_of_first(count: nat, num_workers: int, concurrency: int) -> int
    decreases count,
{
    if count == 0 {
        0
    } else {
        slots_of_first((count - 1) as nat, num_workers, concurrency) + slots_of(
            count - 1,
            num_workers,
            concurrency,
        )
    }
}

/// The share of one worker in a benchmark.
#[derive(Debug, Clone, Copy, PartialEq, Eq, Structural)]
pub struct WorkerShare {
    /// The unique ID of the worker thread.
    pub worker_id: usize,
    /// The number of connections the worker holds.
    pub concurrency: usize,
}

proof fn lemma_slots_of_first(count: nat, num_workers: int, concurrency: int)
    requires
        0 < num_workers,
        0 <= concurrency,
        count <= num_workers,
    ensures
        slots_of_first(count, num_workers, concurrency) == count * (concurrency / num_workers)
            + if count <= concurrency % num_workers {
            count as int
        } else {
            concurrency % num_workers
        },
    decreases count,
{
    let share = concurrency / num_workers;
    let remainder = concurrency % num_workers;
    if count > 0 {
        lemma_slots_of_first((count - 1) as nat, num_workers, concurrency);
        assert((count - 1) * share + share == count * share) by (nonlinear_arith);
    } else {
        assert(count * share == 0) by (nonlinear_arith)
            requires
                count == 0,
        ;
        lemma_fundamental_div_mod(concurrency, num_workers);
    }
}

/// The shares of all workers add up to the total concurrency.
pub proof fn lemma_shares_sum_to_concurrency(num_workers: int, concurrency: int)
    requires
        0 < num_workers,
        0 <= concurrency,
    ensures
        slots_of_first(num_workers as nat, num_workers, concurrency) == concurrency,
{
    lemma_slots_of_first(num_workers as nat, num_workers, concurrency);
    lemma_fundamental_div_mod(concurrency, num_workers);
    assert(concurrency % num_workers < num_workers);
    assert(num_workers * (concurrency / num_workers) == (concurrency / num_workers)
        * num_workers) by (nonlinear_arith);
}

/// No two workers differ by more than one connection, and no worker holds
/// less than the whole part of the quotient.
pub proof fn lemma_shares_are_even(first: int, second: int, num_workers: int, concurrency: int)
    requires
        0 < num_workers,
        0 <= concurrency,
    ensures
        -1 <= slots_of(first, num_workers, concurrency) - slots_of(
            second,
            num_workers,
            concurrency,
        ) <= 1,
        0 <= concurrency / num_workers <= slots_of(first, num_workers, concurrency),
{
    lemma_fundamental_div_mod(concurrency, num_workers);
    assert(0 <= concurrency / num_workers) by (nonlinear_arith)
        requires
            0 < num_workers,
            0 <= concurrency,
    ;
}

/// Splits `concurrency` connections over `num_workers` workers: every worker
/// gets the whole part of the quotient, and the first workers one more each
/// until the remainder is used up.
pub fn split_concurrency(num_workers: usize, concurrency: usize) -> (shares: Vec<WorkerShare>)
    requires
        num_workers > 0,
    ensures
        shares.len() == num_workers,
        forall|i: int|
            0 <= i < num_workers ==> (#[trigger] shares[i]).worker_id == i && shares[i].concurrency
                == slots_of(i, num_workers as int, concurrency as int),
{
    let per_worker_concurrency: usize = concurrency / num_workers;
    proof {
        lemma_fundamental_div_mod(concurrency as int, num_workers as int);
        assert(per_worker_concurrency * num_workers == num_workers * per_worker_concurrency)
            by (nonlinear_arith);
    }
    let mut remaining_concurrency: usize = concurrency - (per_worker_concurrency * num_workers);
    let ghost remainder = concurrency as int % num_workers as int;
    let mut shares: Vec<WorkerShare> = Vec::new();
    let mut worker_id: usize = 0;
    while worker_id < num_workers
        invariant
            0 < num_workers,
            worker_id <= num_workers,
            shares.len() == worker_id,
            per_worker_concurrency == concurrency as int / num_workers as int,
            remainder == concurrency as int % num_workers as int,
            0 <= remainder < num_workers,
            per_worker_concurrency * num_workers + remainder == concurrency,
            remaining_concurrency == if worker_id <= remainder {
                remainder - worker_id
            } else {
                0
            },
            forall|i: int|
                0 <= i < worker_id ==> (#[trigger] shares[i]).worker_id == i
                    && shares[i].concurrency == slots_of(
                    i,
                    num_workers as int,
                    concurrency as int,
                ),
        decreases num_workers - worker_id,
    {
        let concurrency_modifier: usize = if remaining_concurrency != 0 {
            remaining_concurrency -= 1;
            1
        } else {
            0
        };
        assert(per_worker_concurrency + concurrency_modifier <= concurrency) by (nonlinear_arith)
            requires
                per_worker_concurrency * num_workers + remainder == concurrency,
                concurrency_modifier <= 1,
                concurrency_modifier == 1 ==> remainder >= 1,
                0 < num_workers,
                0 <= remainder,
        ;
        shares.push(
            WorkerShare { worker_id, concurrency: per_worker_concurrency + concurrency_modifier },
        );
        worker_id += 1;
    }
    shares
}

/// The key of request number `n` of a batch that a worker executes: the
/// worker and the ID of the first request of the batch counted on by `n`.
pub open spec fn batch_key(worker_id: usize, first_request_id: usize, n: int) -> RequestKey {
    RequestKey::spec_new(worker_id, (first_request_id + n) as usize)
}

/// Every key that a worker of a split forms for one of its requests names a
/// worker of that split: its worker ID is that of the worker and below the
/// number of workers. Within a batch the request IDs are dense and
/// ascending: request `n` has the ID of the first request plus `n`.
pub proof fn lemma_request_keys_name_workers(
    shares: Seq<WorkerShare>,
    num_workers: usize,
    index: int,
    first_request_id: usize,
    requests: nat,
    n: int,
)
    requires
        shares.len() == num_workers,
        forall|i: int| 0 <= i < num_workers ==> (#[trigger] shares[i]).worker_id == i,
        0 <= index < num_workers,
        first_request_id + requests <= usize::MAX,
        0 <= n < requests,
    ensures
        batch_key(shares[index].worker_id, first_request_id, n).spec_worker_id() == index,
        batch_key(shares[index].worker_id, first_request_id, n).spec_worker_id() < num_workers,
        batch_key(shares[index].worker_id, first_request_id, n).spec_request_id()
            == first_request_id + n,
        n + 1 < requests ==> batch_key(
            shares[index].worker_id,
            first_request_id,
            n + 1,
        ).spec_request_id() == batch_key(
            shares[index].worker_id,
            first_request_id,
            n,
        ).spec_request_id() + 1,
{
    RequestKey::lemma_components(shares[index].worker_id, (first_request_id + n) as usize);
    if n + 1 < requests {
        RequestKey::lemma_components(shares[index].worker_id, (first_request_id + n + 1) as usize);
    }
}

/// A flag shared by the orchestrator and all workers that tells them to
/// stop. Once set it is never cleared.
#[derive(Clone)]
pub struct ShutdownHandle {
    /// A signal flag telling all workers to shutdown.
    should_stop: Arc<AtomicBool>,
}

impl ShutdownHandle {
    /// A handle to a new flag that is not set.
    pub fn new() -> Self {
        ShutdownHandle { should_stop: Arc::new(AtomicBool::new(false)) }
    }

    /// Checks if the worker should abort processing.
    pub fn should_abort(&self) -> bool {
        self.should_stop.load(Ordering::Relaxed)
    }

    /// Sets the abort flag across workers.
    pub fn set_abort(&self) {
        self.should_stop.store(true, Ordering::Relaxed);
    }
}

impl Default for ShutdownHandle {
    fn default() -> Self {
        ShutdownHandle::new()
    }
}

/// How an attempt to connect within its deadline ended.
#[derive(Debug, Clone, Copy, PartialEq, Eq, Structural)]
pub enum ConnectResult {
    /// The connection stands.
    Connected,
    /// The deadline passed before any attempt had failed.
    TimedOut,
    /// The last attempt failed.
    Failed,
}

/// What a worker does after an attempt to connect one of its connections.
#[derive(Debug, Clone, Copy, PartialEq, Eq, Structural)]
pub enum StartupStep {
    /// Connect the next connection.
    ConnectNext,
    /// All connections stand: tell the producer to go and run the
    /// connections.
    Go,
    /// Stop the connections that stand and end the worker. The failure is
    /// logged and the shutdown flag set only by the worker that is the first
    /// to fail.
    Abort { first_to_fail: bool },
}

/// What a worker does after an attempt to connect, given how many of its
/// `concurrency` connections stood before, and whether the shutdown flag was
/// set already.
pub open spec fn startup_step(
    concurrency: usize,
    connected: usize,
    result: ConnectResult,
    already_aborting: bool,
) -> StartupStep {
    if result != ConnectResult::Connected {
        StartupStep::Abort { first_to_fail: !already_aborting }
    } else if connected + 1 >= concurrency {
        StartupStep::Go
    } else {
        StartupStep::ConnectNext
    }
}

/// A worker while it connects its connections, one after the other.
#[derive(Debug, Clone, Copy, PartialEq, Eq, Structural)]
pub struct WorkerStartup {
    /// The number of connections the worker is to hold.
    pub concurrency: usize,
    /// The number of connections that stand.
    pub connected: usize,
}

impl WorkerStartup {
    /// A worker that has no connection yet.
    pub fn new(concurrency: usize) -> (startup: Self)
        ensures
            startup.concurrency == concurrency,
            startup.connected == 0,
    {
        WorkerStartup { concurrency, connected: 0 }
    }

    /// What a worker does first: with no connection to hold it goes at
    /// once.
    pub fn first_step(&self) -> (step: StartupStep)
        ensures
            step == if self.connected >= self.concurrency {
                StartupStep::Go
            } else {
                StartupStep::ConnectNext
            },
    {
        if self.connected >= self.concurrency {
            StartupStep::Go
        } else {
            StartupStep::ConnectNext
        }
    }

    /// Decides what follows an attempt to connect, given whether the
    /// shutdown flag was set already.
    pub fn decide(&mut self, result: ConnectResult, already_aborting: bool) -> (step: StartupStep)
        requires
            old(self).connected < old(self).concurrency,
        ensures
            step == startup_step(
                old(self).concurrency,
                old(self).connected,
                result,
                already_aborting,
            ),
            final(self).concurrency == old(self).concurrency,
            final(self).connected == if result == ConnectResult::Connected {
                old(self).connected + 1
            } else {
                old(self).connected as int
            },
    {
        match result {
            ConnectResult::Connected => {
                self.connected = self.connected + 1;
                if self.connected >= self.concurrency {
                    StartupStep::Go
                } else {
                    StartupStep::ConnectNext
                }
            },
            _ => StartupStep::Abort { first_to_fail: !already_aborting },
        }
    }

    /// Decides what follows an attempt to connect. When the attempt did not
    /// give a connection, the shutdown flag is set unless it is set already.
    /// Whether it is, only the flag says.
    pub fn on_connect(&mut self, result: ConnectResult, shutdown: &ShutdownHandle) -> (step:
        StartupStep)
        requires
            old(self).connected < old(self).concurrency,
        ensures
            result == ConnectResult::Connected ==> step == startup_step(
                old(self).concurrency,
                old(self).connected,
                result,
                false,
            ),
            result != ConnectResult::Connected ==> step is Abort,
            final(self).concurrency == old(self).concurrency,
            final(self).connected == if result == ConnectResult::Connected {
                old(self).connected + 1
            } else {
                old(self).connected as int
            },
    {
        let already_aborting = shutdown.should_abort();
        let step = self.decide(result, already_aborting);
        match step {
            StartupStep::Abort { first_to_fail } => {
                // We check this to prevent spam of the logs.
                if first_to_fail {
                    shutdown.set_abort();
                }
            },
            _ => {},
        }
        step
    }
}

} // verus!
