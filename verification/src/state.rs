//! The shared run-state store: current configuration, run status, progress,
//! and the log buffer.
//!
//! The controlling shell starts and stops runs and reads consistent
//! snapshots; the dispatch loop advances one cycle at a time through
//! `poll_cycle`. The surrounding binary holds the store under a mutual
//! exclusion lock and calls in for every read or write, so each method here
//! describes one critical section.

use vstd::prelude::*;
use vstd::string::StringExecFns;

use crate::config::{Protocol, RunConfig};
use crate::dispatch::{cycle_decision, next_completed, next_running, CycleDecision};
use crate::logbuf::{appended, LogBuffer};
use crate::numtext::{spec_decimal, u64_to_decimal, usize_to_decimal};

verus! {

/// Relies on chrono: `Local::now()` formatted with `"%H:%M:%S%.6f"` is two
/// zero-padded digits each for hour, minute and second, two colons, and a dot
/// followed by six zero-padded fractional-second digits — 15 characters.
#[verifier::external_body]
fn now_stamp() -> (r: String)
    ensures
        r@.len() == 15,
{
    chrono::Local::now().format("%H:%M:%S%.6f").to_string()
}

/// `line` is `msg` behind an 18-character `[HH:MM:SS.ffffff] ` prefix.
pub open spec fn stamped(line: Seq<char>, msg: Seq<char>) -> bool {
    &&& line.len() == msg.len() + 18
    &&& line.skip(18) == msg
    &&& line[0] == '['
    &&& line[16] == ']'
    &&& line[17] == ' '
}

/// One log append: `post` is `pre` with one new timestamped line carrying
/// `msg`, the oldest line evicted if the capacity was reached.
pub open spec fn logged(pre: Seq<Seq<char>>, post: Seq<Seq<char>>, msg: Seq<char>) -> bool {
    &&& post.len() >= 1
    &&& post == appended(pre, post.last())
    &&& stamped(post.last(), msg)
}

/// The summary line a starting run writes, echoing its configuration.
pub open spec fn start_message(
    delay_ms: u64,
    header_size_kb: usize,
    protocol: Protocol,
    iteration: usize,
) -> Seq<char> {
    "Process Start: Delay "@ + spec_decimal(delay_ms as nat) + "ms, Header Size "@
        + spec_decimal(header_size_kb as nat) + "kb, Protocol "@ + protocol.spec_label()
        + ", Iter "@ + spec_decimal(iteration as nat)
}

/// Prefixes `msg` with the current time of day.
fn stamp_line(msg: &str) -> (r: String)
    ensures
        stamped(r@, msg@),
{
    let stamp = now_stamp();
    let mut line = String::new();
    line.append("[");
    line.append(stamp.as_str());
    line.append("] ");
    line.append(msg);
    proof {
        reveal_strlit("[");
        reveal_strlit("] ");
        assert(line@.skip(18) =~= msg@);
    }
    line
}

/// What the dispatch loop was told to do by one polling cycle.
pub enum PollAction {
    /// Sleep for the order's delay, then initiate one request with its
    /// parameters, without waiting for the outcome.
    Dispatch(DispatchOrder),
    /// The run reached its iteration count and was just flipped to idle.
    Finished,
    /// No run is active; sleep briefly before polling again.
    Idle,
}

/// The parameters one dispatched request is built from: a copy of the active
/// configuration at the moment of initiation.
pub struct DispatchOrder {
    pub dst_url: String,
    pub delay_ms: u64,
    pub header_size_kb: usize,
    pub protocol: Protocol,
}

/// A consistent copy of the store, read in one critical section.
pub struct Snapshot {
    pub running: bool,
    pub completed: usize,
    pub logs: Vec<String>,
}

/// The process-wide run state, shared by the shell and the dispatch loop.
pub struct AppState {
    /// Whether a run is active. Set by `start`, cleared by `stop` or by the
    /// dispatch loop on natural completion.
    pub running: bool,
    /// Requests initiated so far in the active run — initiated, not
    /// resolved: dispatch is fire-and-forget.
    pub completed_iterations: usize,
    /// The active run's parameters; replaced wholesale by `start`.
    pub config: RunConfig,
    /// Most recent log lines, oldest evicted beyond the capacity.
    pub logs: LogBuffer,
}

impl AppState {
    pub open spec fn inv(&self) -> bool {
        self.logs.inv()
    }

    /// The store a process begins with: idle, empty log, placeholder config.
    pub fn new() -> (r: AppState)
        ensures
            r.inv(),
            !r.running,
            r.completed_iterations == 0,
            r.logs@ == Seq::<Seq<char>>::empty(),
            r.config.dst_url@ == Seq::<char>::empty(),
            r.config.delay_ms == 0,
            r.config.header_size_kb == 0,
            r.config.protocol == Protocol::Http1,
            r.config.iteration == 1,
    {
        AppState {
            running: false,
            completed_iterations: 0,
            config: RunConfig {
                dst_url: String::new(),
                delay_ms: 0,
                header_size_kb: 0,
                protocol: Protocol::Http1,
                iteration: 1,
            },
            logs: LogBuffer::new(),
        }
    }

    /// Appends `log` behind a timestamp, evicting the oldest line if the
    /// buffer is full. Nothing else changes.
    pub fn add_log(&mut self, log: &str)
        requires
            old(self).inv(),
        ensures
            final(self).inv(),
            logged(old(self).logs@, final(self).logs@, log@),
            final(self).running == old(self).running,
            final(self).completed_iterations == old(self).completed_iterations,
            final(self).config == old(self).config,
    {
        let line = stamp_line(log);
        self.logs.append_line(line);
        proof {
            crate::logbuf::lemma_appended_shape(old(self).logs@, line@);
        }
    }

    /// Starts a run: a no-op while one is already active; otherwise installs
    /// `config`, resets progress, sets `running`, and logs the start line.
    pub fn start(&mut self, config: RunConfig)
        requires
            old(self).inv(),
        ensures
            final(self).inv(),
            old(self).running ==> *final(self) == *old(self),
            !old(self).running ==> {
                &&& final(self).running
                &&& final(self).completed_iterations == 0
                &&& final(self).config == config
                &&& logged(
                    old(self).logs@,
                    final(self).logs@,
                    start_message(
                        config.delay_ms,
                        config.header_size_kb,
                        config.protocol,
                        config.iteration,
                    ),
                )
            },
    {
        if self.running {
            return ;
        }
        let mut msg = "Process Start: Delay ".to_owned();
        msg.append(u64_to_decimal(config.delay_ms).as_str());
        msg.append("ms, Header Size ");
        msg.append(usize_to_decimal(config.header_size_kb).as_str());
        msg.append("kb, Protocol ");
        msg.append(config.protocol.label().as_str());
        msg.append(", Iter ");
        msg.append(usize_to_decimal(config.iteration).as_str());
        proof {
            assert(msg@ == start_message(
                config.delay_ms,
                config.header_size_kb,
                config.protocol,
                config.iteration,
            ));
        }
        self.running = true;
        self.completed_iterations = 0;
        self.config = config;
        self.add_log(msg.as_str());
    }

    /// Stops the active run: clears `running` and logs the stop line. A
    /// no-op while idle. In-flight requests are not cancelled; their log
    /// lines may still arrive afterwards.
    pub fn stop(&mut self)
        requires
            old(self).inv(),
        ensures
            final(self).inv(),
            !old(self).running ==> *final(self) == *old(self),
            old(self).running ==> {
                &&& !final(self).running
                &&& final(self).completed_iterations == old(self).completed_iterations
                &&& final(self).config == old(self).config
                &&& logged(old(self).logs@, final(self).logs@, "Process Stopped by user"@)
            },
    {
        if !self.running {
            return ;
        }
        self.running = false;
        self.add_log("Process Stopped by user");
    }

    /// One consistent copy of status, progress, and the whole log: all three
    /// fields come from the same store value, so a reader can never pair a
    /// stale flag with a fresher log or the reverse.
    pub fn snapshot(&self) -> (r: Snapshot)
        ensures
            r.running == self.running,
            r.completed == self.completed_iterations,
            r.logs.deep_view() == self.logs@,
    {
        Snapshot {
            running: self.running,
            completed: self.completed_iterations,
            logs: self.logs.lines(),
        }
    }

    /// One cycle of the dispatch loop, exactly as `cycle_decision` and its
    /// companions in `dispatch` prescribe: initiate (and count) one request,
    /// or finish the run and log "Process Done", or idle and reset the
    /// counter for the next run.
    pub fn poll_cycle(&mut self) -> (action: PollAction)
        requires
            old(self).inv(),
        ensures
            final(self).inv(),
            final(self).running == next_running(
                old(self).running,
                old(self).completed_iterations as nat,
                old(self).config.iteration as nat,
            ),
            final(self).completed_iterations as nat == next_completed(
                old(self).running,
                old(self).completed_iterations as nat,
                old(self).config.iteration as nat,
            ),
            final(self).config == old(self).config,
            cycle_decision(
                old(self).running,
                old(self).completed_iterations as nat,
                old(self).config.iteration as nat,
            ) == CycleDecision::Dispatch ==> {
                &&& final(self).logs@ == old(self).logs@
                &&& (action matches PollAction::Dispatch(order) && {
                    &&& order.dst_url@ == old(self).config.dst_url@
                    &&& order.delay_ms == old(self).config.delay_ms
                    &&& order.header_size_kb == old(self).config.header_size_kb
                    &&& order.protocol == old(self).config.protocol
                })
            },
            cycle_decision(
                old(self).running,
                old(self).completed_iterations as nat,
                old(self).config.iteration as nat,
            ) == CycleDecision::Finish ==> {
                &&& action is Finished
                &&& logged(old(self).logs@, final(self).logs@, "Process Done"@)
            },
            cycle_decision(
                old(self).running,
                old(self).completed_iterations as nat,
                old(self).config.iteration as nat,
            ) == CycleDecision::Idle ==> {
                &&& action is Idle
                &&& final(self).logs@ == old(self).logs@
            },
    {
        if self.running && self.completed_iterations < self.config.iteration {
            self.completed_iterations = self.completed_iterations + 1;
            PollAction::Dispatch(
                DispatchOrder {
                    dst_url: self.config.dst_url.clone(),
                    delay_ms: self.config.delay_ms,
                    header_size_kb: self.config.header_size_kb,
                    protocol: self.config.protocol,
                },
            )
        } else if self.running {
            self.running = false;
            self.add_log("Process Done");
            PollAction::Finished
        } else {
            self.completed_iterations = 0;
            PollAction::Idle
        }
    }
}

} // verus!
