//! Verified decision core of a compute-provider agent for an on-chain
//! inference marketplace.
//!
//! Every component is written as a pure step function: it is handed what the
//! outside world produced (a chain event, the outcome of a request, a signal)
//! and answers with the next thing to do. Whoever drives the library performs
//! the I/O and feeds the outcome back in.

use vstd::prelude::*;

use crate::types::Failure;

pub mod cog;
pub mod config;
pub mod data;
pub mod engine;
pub mod json;
pub mod protocol;
pub mod types;
pub mod utils;

verus! {

/// How many chain events the channel between the listener and the engines
/// holds for an engine that has fallen behind.
pub const CHANNEL_CAPACITY: usize = 128;

/// The long-running tasks whose failure brings the whole agent down.
#[derive(Clone, Copy, Debug, PartialEq, Eq, Structural)]
pub enum Task {
    ChainListener,
    HttpServer,
    ExecutionEngine,
    BidEngine,
}

/// The signals by which the operator asks for shutdown.
#[derive(Clone, Copy, Debug, PartialEq, Eq, Structural)]
pub enum Signal {
    Interrupt,
    Terminate,
}

/// Something the supervisor is told.
#[derive(Debug)]
pub enum Happening {
    /// A task was handed over to be run.
    Spawned,
    /// No further task will be handed over.
    Closed,
    /// The operator asked for shutdown.
    Signalled(Signal),
    /// A critical task returned.
    Returned(Result<(), Failure>),
}

/// The supervisor's books: whether shutdown has been asked for, whether new
/// tasks are still taken, and how many tasks have not returned yet.
#[derive(Clone, Copy, Debug, PartialEq, Eq, Structural)]
pub struct Supervisor {
    pub cancelled: bool,
    pub closed: bool,
    pub running: usize,
}

/// The tasks to bring up once the chain is connected, in this order; or the
/// failure to connect, which ends the start.
pub fn start(connection: Result<(), Failure>) -> (plan: Result<Vec<Task>, Failure>)
    ensures
        match connection {
            Ok(_) => plan is Ok && plan->Ok_0@ == seq![
                Task::ChainListener,
                Task::HttpServer,
                Task::ExecutionEngine,
                Task::BidEngine,
            ],
            Err(failure) => plan == Err::<Vec<Task>, Failure>(failure),
        },
{
    match connection {
        Ok(()) => {
            let mut plan: Vec<Task> = Vec::new();
            plan.push(Task::ChainListener);
            plan.push(Task::HttpServer);
            plan.push(Task::ExecutionEngine);
            plan.push(Task::BidEngine);
            assert(plan@ =~= seq![
                Task::ChainListener,
                Task::HttpServer,
                Task::ExecutionEngine,
                Task::BidEngine,
            ]);
            Ok(plan)
        },
        Err(failure) => Err(failure),
    }
}

impl Supervisor {
    /// The books after `happening`. Shutdown, once asked for, stays asked for.
    pub open spec fn after(self, happening: Happening) -> Supervisor {
        match happening {
            Happening::Spawned => if !self.closed && self.running < usize::MAX {
                Supervisor { running: (self.running + 1) as usize, ..self }
            } else {
                self
            },
            Happening::Closed => Supervisor { closed: true, ..self },
            Happening::Signalled(_) => Supervisor { cancelled: true, ..self },
            Happening::Returned(result) => Supervisor {
                cancelled: self.cancelled || result is Err,
                running: if self.running > 0 {
                    (self.running - 1) as usize
                } else {
                    0
                },
                ..self
            },
        }
    }

    /// The books after all of `happenings`, in order.
    pub open spec fn after_all(self, happenings: Seq<Happening>) -> Supervisor
        decreases happenings.len(),
    {
        if happenings.len() == 0 {
            self
        } else {
            self.after_all(happenings.drop_last()).after(happenings.last())
        }
    }

    /// Whether waiting for the tasks is over: no more are taken and all have
    /// returned.
    pub open spec fn done(self) -> bool {
        self.closed && self.running == 0
    }

    /// Fresh books: nothing running, open for tasks, no shutdown asked for.
    pub fn new() -> (supervisor: Supervisor)
        ensures
            supervisor == (Supervisor { cancelled: false, closed: false, running: 0 }),
    {
        Supervisor { cancelled: false, closed: false, running: 0 }
    }

    /// Takes a task to run, unless the books are closed or full.
    pub fn spawn(&mut self) -> (taken: bool)
        ensures
            *final(self) == old(self).after(Happening::Spawned),
            taken == (!old(self).closed && old(self).running < usize::MAX),
    {
        if !self.closed && self.running < usize::MAX {
            self.running = self.running + 1;
            true
        } else {
            false
        }
    }

    /// Closes the books to new tasks.
    pub fn close(&mut self)
        ensures
            *final(self) == old(self).after(Happening::Closed),
    {
        self.closed = true;
    }

    /// Notes a signal of the operator: shutdown is asked for.
    pub fn shutdown_signal(&mut self, signal: Signal)
        ensures
            *final(self) == old(self).after(Happening::Signalled(signal)),
            final(self).cancelled,
    {
        self.cancelled = true;
    }

    /// Notes that a critical task returned with `result`, and hands the
    /// result on. A task that failed makes the supervisor ask for shutdown.
    pub fn critical_task(&mut self, result: Result<(), Failure>) -> (handed_on: Result<(), Failure>)
        ensures
            *final(self) == old(self).after(Happening::Returned(result)),
            handed_on == result,
            result is Err ==> final(self).cancelled,
    {
        if self.running > 0 {
            self.running = self.running - 1;
        }
        if result.is_err() {
            self.cancelled = true;
        }
        result
    }

    /// Whether shutdown has been asked for.
    pub fn is_cancelled(&self) -> (cancelled: bool)
        ensures
            cancelled == self.cancelled,
    {
        self.cancelled
    }

    /// Whether waiting for the tasks is over.
    pub fn wait(&self) -> (over: bool)
        ensures
            over == self.done(),
    {
        self.closed && self.running == 0
    }

    /// Shutdown, once asked for, stays asked for, whatever happens.
    pub proof fn law_cancellation_is_kept(self, happenings: Seq<Happening>)
        requires
            self.cancelled,
        ensures
            self.after_all(happenings).cancelled,
        decreases happenings.len(),
    {
        if happenings.len() > 0 {
            self.law_cancellation_is_kept(happenings.drop_last());
        }
    }

    /// If a critical task returned an error, shutdown has been asked for
    /// from then on, and so by the time waiting for the tasks is over.
    pub proof fn law_fail_fast(self, happenings: Seq<Happening>, at: int)
        requires
            0 <= at < happenings.len(),
            happenings[at] matches Happening::Returned(result) && result is Err,
        ensures
            self.after_all(happenings).cancelled,
            self.after_all(happenings).done() ==> self.after_all(happenings).cancelled,
        decreases happenings.len(),
    {
        if at < happenings.len() - 1 {
            self.law_fail_fast(happenings.drop_last(), at);
        }
    }
}

} // verus!
