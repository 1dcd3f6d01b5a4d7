//! The runtime: a configuration checked on creation, and a small state machine
//! that counts its executions and times the one in progress.

use vstd::prelude::*;
use std::time::{Duration, Instant};
use crate::clock::{
    duration_exceeds, duration_from_secs, duration_of_secs, instant_now, longer_than,
    span_between, span_since, zero_duration,
};

verus! {

/// Errors of the runtime.
#[derive(Debug)]
pub enum RuntimeError {
    /// The runtime could not be set up.
    InitializationError(String),
    /// The configuration is not one the runtime accepts.
    ConfigurationError(String),
    /// The requested transition is not allowed from the current state.
    StateTransitionError(String),
    /// The operation in progress ran longer than the configured limit.
    TimeoutError(Duration),
}

/// States of the runtime.
#[derive(Debug, Clone, Copy, PartialEq, Eq, Structural)]
pub enum RuntimeState {
    /// The runtime is not initialized.
    Uninitialized,
    /// The runtime is ready for operations.
    Ready,
    /// The runtime is executing an operation.
    Running,
    /// The runtime has completed an operation.
    Completed,
    /// The runtime encountered an error.
    Error,
}

impl Default for RuntimeState {
    fn default() -> (s: Self)
        ensures
            s == RuntimeState::Uninitialized,
    {
        RuntimeState::Uninitialized
    }
}

/// The name of a state, as `Debug` writes it.
pub open spec fn state_name(s: RuntimeState) -> Seq<char> {
    match s {
        RuntimeState::Uninitialized => "Uninitialized"@,
        RuntimeState::Ready => "Ready"@,
        RuntimeState::Running => "Running"@,
        RuntimeState::Completed => "Completed"@,
        RuntimeState::Error => "Error"@,
    }
}

/// The name of a state, as `Debug` writes it.
fn state_label(s: RuntimeState) -> (res: &'static str)
    ensures
        res@ == state_name(s),
{
    match s {
        RuntimeState::Uninitialized => "Uninitialized",
        RuntimeState::Ready => "Ready",
        RuntimeState::Running => "Running",
        RuntimeState::Completed => "Completed",
        RuntimeState::Error => "Error",
    }
}

/// Runtime configuration.
#[derive(Debug, Clone)]
pub struct RuntimeConfig {
    /// Maximum execution time for operations.
    pub max_execution_time: Duration,
    /// Number of qubits to simulate.
    pub num_qubits: usize,
    /// Enable verbose logging.
    pub verbose: bool,
}

/// The largest number of qubits the runtime simulates.
pub const MAX_QUBITS: usize = 20;

/// The limit on an operation's time that a configuration starts with, in seconds.
pub const DEFAULT_MAX_EXECUTION_SECS: u64 = 60;

/// The number of qubits that the default configuration simulates.
pub const DEFAULT_QUBITS: usize = 4;

impl Default for RuntimeConfig {
    fn default() -> (c: Self)
        ensures
            c.max_execution_time == duration_of_secs(DEFAULT_MAX_EXECUTION_SECS),
            c.num_qubits == DEFAULT_QUBITS,
            !c.verbose,
    {
        RuntimeConfig {
            max_execution_time: duration_from_secs(DEFAULT_MAX_EXECUTION_SECS),
            num_qubits: DEFAULT_QUBITS,
            verbose: false,
        }
    }
}

impl RuntimeConfig {
    /// Creates a configuration for `num_qubits` qubits, otherwise default.
    pub fn new(num_qubits: usize) -> (c: Self)
        ensures
            c.max_execution_time == duration_of_secs(DEFAULT_MAX_EXECUTION_SECS),
            c.num_qubits == num_qubits,
            !c.verbose,
    {
        let mut c = RuntimeConfig::default();
        c.num_qubits = num_qubits;
        c
    }

    /// Sets the maximum execution time.
    pub fn with_max_execution_time(self, duration: Duration) -> (c: Self)
        ensures
            c.max_execution_time == duration,
            c.num_qubits == self.num_qubits,
            c.verbose == self.verbose,
    {
        let mut c = self;
        c.max_execution_time = duration;
        c
    }

    /// Enables or disables verbose mode.
    pub fn with_verbose(self, verbose: bool) -> (c: Self)
        ensures
            c.max_execution_time == self.max_execution_time,
            c.num_qubits == self.num_qubits,
            c.verbose == verbose,
    {
        let mut c = self;
        c.verbose = verbose;
        c
    }
}

/// What is wrong with a number of qubits, if anything: the runtime needs at
/// least one and simulates at most `MAX_QUBITS`.
pub open spec fn qubit_count_problem(n: usize) -> Option<Seq<char>> {
    if n == 0 {
        Some("Number of qubits must be greater than 0"@)
    } else if n > MAX_QUBITS {
        Some("Number of qubits must not exceed 20 for simulation"@)
    } else {
        None
    }
}

/// The runtime as its callers see it.
pub struct RuntimeView {
    pub config: RuntimeConfig,
    pub state: RuntimeState,
    pub execution_count: u64,
}

/// The runtime that a configuration creates.
pub open spec fn fresh_runtime(config: RuntimeConfig) -> RuntimeView {
    RuntimeView { config, state: RuntimeState::Ready, execution_count: 0 }
}

/// An execution can start from `Ready` and from `Completed`.
pub open spec fn can_start(s: RuntimeState) -> bool {
    s == RuntimeState::Ready || s == RuntimeState::Completed
}

/// An execution can stop only while one is running.
pub open spec fn can_stop(s: RuntimeState) -> bool {
    s == RuntimeState::Running
}

/// The runtime after a successful start: running, one execution more.
pub open spec fn started(v: RuntimeView) -> RuntimeView {
    RuntimeView { state: RuntimeState::Running, execution_count: (v.execution_count + 1) as u64, ..v }
}

/// The runtime after a successful stop: completed.
pub open spec fn stopped(v: RuntimeView) -> RuntimeView {
    RuntimeView { state: RuntimeState::Completed, ..v }
}

/// The runtime after a reset: ready, with its count kept.
pub open spec fn reset_view(v: RuntimeView) -> RuntimeView {
    RuntimeView { state: RuntimeState::Ready, ..v }
}

/// The message of a refused start.
pub open spec fn start_refusal(s: RuntimeState) -> Seq<char> {
    "Cannot start from state "@ + state_name(s)
}

/// The message of a refused stop.
pub open spec fn stop_refusal(s: RuntimeState) -> Seq<char> {
    "Cannot stop from state "@ + state_name(s)
}

/// The runtime of the attestation protocol.
#[derive(Debug)]
pub struct QrapRuntime {
    config: RuntimeConfig,
    state: RuntimeState,
    start_time: Option<Instant>,
    execution_count: u64,
}

impl View for QrapRuntime {
    type V = RuntimeView;

    closed spec fn view(&self) -> RuntimeView {
        RuntimeView {
            config: self.config,
            state: self.state,
            execution_count: self.execution_count,
        }
    }
}

impl QrapRuntime {
    /// The runtime holds a start time exactly while an execution runs.
    pub closed spec fn wf(&self) -> bool {
        self.start_time is Some <==> self.state == RuntimeState::Running
    }

    /// The instant at which the running execution started, if one runs.
    pub closed spec fn started_at(&self) -> Option<Instant> {
        self.start_time
    }

    /// Creates a runtime, refusing a configuration without qubits or with more
    /// than `MAX_QUBITS`.
    pub fn new(config: RuntimeConfig) -> (res: Result<Self, RuntimeError>)
        ensures
            res is Ok <==> qubit_count_problem(config.num_qubits) is None,
            res is Ok <==> 1 <= config.num_qubits && config.num_qubits <= 20,
            config.num_qubits == 0 ==> (res matches Err(RuntimeError::ConfigurationError(m))
                && m@ == "Number of qubits must be greater than 0"@),
            config.num_qubits > 20 ==> (res matches Err(RuntimeError::ConfigurationError(m))
                && m@ == "Number of qubits must not exceed 20 for simulation"@),
            res matches Ok(rt) ==> rt.wf() && rt@ == fresh_runtime(config),
            res matches Err(e) ==> e matches RuntimeError::ConfigurationError(m)
                && Some(m@) == qubit_count_problem(config.num_qubits),
    {
        if config.num_qubits == 0 {
            return Err(RuntimeError::ConfigurationError(
                "Number of qubits must be greater than 0".to_owned(),
            ));
        }
        if config.num_qubits > MAX_QUBITS {
            return Err(RuntimeError::ConfigurationError(
                "Number of qubits must not exceed 20 for simulation".to_owned(),
            ));
        }
        Ok(QrapRuntime {
            config,
            state: RuntimeState::Ready,
            start_time: None,
            execution_count: 0,
        })
    }

    /// The current state.
    pub fn state(&self) -> (s: RuntimeState)
        ensures
            s == self@.state,
    {
        self.state
    }

    /// The configuration.
    pub fn config(&self) -> (c: &RuntimeConfig)
        ensures
            *c == self@.config,
    {
        &self.config
    }

    /// The number of executions started so far.
    pub fn execution_count(&self) -> (n: u64)
        ensures
            n == self@.execution_count,
    {
        self.execution_count
    }

    /// Starts an execution: from `Ready` or `Completed`, the runtime runs, its
    /// clock starts, and its count grows by one; from any other state the
    /// start is refused and nothing changes.
    pub fn start(&mut self) -> (res: Result<(), RuntimeError>)
        requires
            old(self).wf(),
            can_start(old(self)@.state) ==> old(self)@.execution_count < u64::MAX,
        ensures
            final(self).wf(),
            res is Ok <==> op_succeeds(old(self)@, RuntimeOp::Start),
            final(self)@ == apply_op(old(self)@, RuntimeOp::Start),
            res is Ok ==> final(self)@ == started(old(self)@),
            res is Ok ==> final(self).started_at() is Some,
            res is Err ==> final(self).started_at() == old(self).started_at(),
            res matches Err(e) ==> final(self)@ == old(self)@,
            res matches Err(e) ==> (e matches RuntimeError::StateTransitionError(m)
                && m@ == start_refusal(old(self)@.state)),
    {
        match self.state {
            RuntimeState::Ready | RuntimeState::Completed => {
                self.state = RuntimeState::Running;
                self.start_time = Some(instant_now());
                self.execution_count = self.execution_count + 1;
                Ok(())
            },
            _ => {
                let mut msg = "Cannot start from state ".to_owned();
                msg.append(state_label(self.state));
                Err(RuntimeError::StateTransitionError(msg))
            },
        }
    }

    /// Stops the running execution and returns the time it took: the runtime
    /// is then completed and its clock cleared. In any other state the stop
    /// is refused and nothing changes. The time returned is a clock reading.
    pub fn stop(&mut self) -> (res: Result<Duration, RuntimeError>)
        requires
            old(self).wf(),
        ensures
            final(self).wf(),
            res is Ok <==> op_succeeds(old(self)@, RuntimeOp::Stop),
            final(self)@ == apply_op(old(self)@, RuntimeOp::Stop),
            res is Ok ==> final(self)@ == stopped(old(self)@),
            res matches Ok(d) ==> exists|later: Instant|
                d == span_between(old(self).started_at().unwrap(), later),
            res is Ok ==> final(self).started_at() is None,
            res is Err ==> final(self).started_at() == old(self).started_at(),
            res matches Err(e) ==> final(self)@ == old(self)@,
            res matches Err(e) ==> (e matches RuntimeError::StateTransitionError(m)
                && m@ == stop_refusal(old(self)@.state)),
    {
        match self.state {
            RuntimeState::Running => {
                let elapsed = match &self.start_time {
                    Some(t) => {
                        let now = instant_now();
                        span_since(&now, t)
                    },
                    None => zero_duration(),
                };
                self.state = RuntimeState::Completed;
                self.start_time = None;
                Ok(elapsed)
            },
            _ => {
                let mut msg = "Cannot stop from state ".to_owned();
                msg.append(state_label(self.state));
                Err(RuntimeError::StateTransitionError(msg))
            },
        }
    }

    /// Resets the runtime to `Ready`, clearing its clock and keeping its count.
    pub fn reset(&mut self)
        ensures
            final(self).wf(),
            final(self)@ == reset_view(old(self)@),
            final(self)@ == apply_op(old(self)@, RuntimeOp::Reset),
            final(self).started_at() is None,
    {
        self.state = RuntimeState::Ready;
        self.start_time = None;
    }

    /// Checks the running execution against the configured limit: an error
    /// carrying the limit where the time passed since its start exceeds it.
    /// Without a running execution the check passes; while one runs, the time
    /// passed is measured from the recorded start to a fresh clock reading.
    pub fn check_timeout(&self) -> (res: Result<(), RuntimeError>)
        requires
            self.wf(),
        ensures
            !can_stop(self@.state) ==> res is Ok,
            can_stop(self@.state) ==> exists|later: Instant|
                (res is Err <==> longer_than(
                    span_between(self.started_at().unwrap(), later),
                    self@.config.max_execution_time,
                )),
            res matches Err(e) ==> e matches RuntimeError::TimeoutError(d)
                && d == self@.config.max_execution_time,
    {
        if let Some(start) = &self.start_time {
            let now = instant_now();
            let elapsed = span_since(&now, start);
            return self.timeout_after(&elapsed);
        }
        Ok(())
    }

    /// Decides the timeout for a run that has lasted `elapsed`: an error
    /// carrying the limit exactly where `elapsed` is longer than the limit.
    pub fn timeout_after(&self, elapsed: &Duration) -> (res: Result<(), RuntimeError>)
        ensures
            res is Err <==> longer_than(*elapsed, self@.config.max_execution_time),
            res matches Err(e) ==> e matches RuntimeError::TimeoutError(d)
                && d == self@.config.max_execution_time,
    {
        if duration_exceeds(elapsed, &self.config.max_execution_time) {
            return Err(RuntimeError::TimeoutError(self.config.max_execution_time));
        }
        Ok(())
    }
}

/// A run goes from a state that can start through `Running` to `Completed`:
/// the start is allowed, the stop after it is allowed, and the stop leaves the
/// runtime completed with one execution more than before.
pub proof fn lemma_start_then_stop(v: RuntimeView)
    requires
        can_start(v.state),
        v.execution_count < u64::MAX,
    ensures
        started(v).state == RuntimeState::Running,
        can_stop(started(v).state),
        stopped(started(v)).state == RuntimeState::Completed,
        stopped(started(v)).execution_count == v.execution_count + 1,
        stopped(started(v)).config == v.config,
{
}

/// A completed runtime can start again.
pub proof fn lemma_restart_after_completion(v: RuntimeView)
    ensures
        can_start(stopped(v).state),
{
}

/// A running execution cannot be started a second time: once a start has
/// succeeded, the next start is refused until a stop or reset.
pub proof fn lemma_no_double_start(v: RuntimeView)
    ensures
        !can_start(started(v).state),
{
}

/// A fresh runtime has nothing to stop, and can start.
pub proof fn lemma_fresh_runtime_cannot_stop(config: RuntimeConfig)
    ensures
        !can_stop(fresh_runtime(config).state),
        can_start(fresh_runtime(config).state),
        fresh_runtime(config).execution_count == 0,
{
}

/// The execution count grows by one on each successful start and on nothing
/// else: stops and resets keep it.
pub proof fn lemma_only_starts_count(v: RuntimeView)
    requires
        v.execution_count < u64::MAX,
    ensures
        started(v).execution_count == v.execution_count + 1,
        stopped(v).execution_count == v.execution_count,
        reset_view(v).execution_count == v.execution_count,
{
}

/// A reset leaves the runtime ready to start, and a second reset changes
/// nothing more.
pub proof fn lemma_reset_readies(v: RuntimeView)
    ensures
        reset_view(v).state == RuntimeState::Ready,
        can_start(reset_view(v).state),
        reset_view(reset_view(v)) == reset_view(v),
{
}

/// No transition changes the configuration.
pub proof fn lemma_config_is_fixed(v: RuntimeView)
    ensures
        started(v).config == v.config,
        stopped(v).config == v.config,
        reset_view(v).config == v.config,
{
}

/// An operation on the runtime, for stating what a series of calls does.
pub enum RuntimeOp {
    Start,
    Stop,
    Reset,
}

/// Whether an operation succeeds on a runtime.
pub open spec fn op_succeeds(v: RuntimeView, op: RuntimeOp) -> bool {
    match op {
        RuntimeOp::Start => can_start(v.state),
        RuntimeOp::Stop => can_stop(v.state),
        RuntimeOp::Reset => true,
    }
}

/// The runtime after an operation, as `start`, `stop` and `reset` leave it:
/// a refused operation changes nothing.
pub open spec fn apply_op(v: RuntimeView, op: RuntimeOp) -> RuntimeView {
    match op {
        RuntimeOp::Start => if can_start(v.state) { started(v) } else { v },
        RuntimeOp::Stop => if can_stop(v.state) { stopped(v) } else { v },
        RuntimeOp::Reset => reset_view(v),
    }
}

/// The runtime after a series of operations, in order.
pub open spec fn apply_ops(v: RuntimeView, ops: Seq<RuntimeOp>) -> RuntimeView
    decreases ops.len(),
{
    if ops.len() == 0 {
        v
    } else {
        apply_op(apply_ops(v, ops.drop_last()), ops.last())
    }
}

/// How many operations of a series are starts that succeed.
pub open spec fn successful_starts(v: RuntimeView, ops: Seq<RuntimeOp>) -> nat
    decreases ops.len(),
{
    if ops.len() == 0 {
        0
    } else {
        let before = apply_ops(v, ops.drop_last());
        successful_starts(v, ops.drop_last()) + (if ops.last() is Start && can_start(before.state) {
            1nat
        } else {
            0nat
        })
    }
}

/// The execution count tracks the starts: after any series of operations it
/// is the count before plus the number of starts that succeeded, so it never
/// goes down; and no series of operations changes the configuration.
pub proof fn lemma_count_tracks_starts(v: RuntimeView, ops: Seq<RuntimeOp>)
    requires
        v.execution_count + ops.len() <= u64::MAX,
    ensures
        apply_ops(v, ops).execution_count == v.execution_count + successful_starts(v, ops),
        apply_ops(v, ops).execution_count >= v.execution_count,
        successful_starts(v, ops) <= ops.len(),
        apply_ops(v, ops).config == v.config,
    decreases ops.len(),
{
    if ops.len() > 0 {
        lemma_count_tracks_starts(v, ops.drop_last());
    }
}

/// The last operation of a series that succeeded, if any did.
pub open spec fn last_success(v: RuntimeView, ops: Seq<RuntimeOp>) -> Option<RuntimeOp>
    decreases ops.len(),
{
    if ops.len() == 0 {
        None
    } else if op_succeeds(apply_ops(v, ops.drop_last()), ops.last()) {
        Some(ops.last())
    } else {
        last_success(v, ops.drop_last())
    }
}

/// The states a created runtime can be in.
pub open spec fn reachable_state(s: RuntimeState) -> bool {
    s == RuntimeState::Ready || s == RuntimeState::Running || s == RuntimeState::Completed
}

/// The state follows the last successful operation: after any series of
/// operations the runtime is `Running` if that was a start, `Completed` if it
/// was a stop, `Ready` if it was a reset, and as before if none succeeded; so
/// a runtime that starts `Ready`, `Running` or `Completed` never leaves those.
pub proof fn lemma_state_follows_last_success(v: RuntimeView, ops: Seq<RuntimeOp>)
    ensures
        apply_ops(v, ops).state == (match last_success(v, ops) {
            None => v.state,
            Some(RuntimeOp::Start) => RuntimeState::Running,
            Some(RuntimeOp::Stop) => RuntimeState::Completed,
            Some(RuntimeOp::Reset) => RuntimeState::Ready,
        }),
        reachable_state(v.state) ==> reachable_state(apply_ops(v, ops).state),
    decreases ops.len(),
{
    if ops.len() > 0 {
        lemma_state_follows_last_success(v, ops.drop_last());
    }
}

/// A created runtime, whatever calls follow, is `Ready`, `Running` or
/// `Completed`, never `Uninitialized` or `Error`.
pub proof fn lemma_created_runtime_states(config: RuntimeConfig, ops: Seq<RuntimeOp>)
    ensures
        reachable_state(apply_ops(fresh_runtime(config), ops).state),
{
    lemma_state_follows_last_success(fresh_runtime(config), ops);
}

/// The runtime accepts exactly the qubit counts from 1 to 20: no count in
/// that range has a problem, and every count outside it has one.
pub proof fn lemma_accepted_qubit_counts(n: usize)
    ensures
        qubit_count_problem(n) is None <==> 1 <= n && n <= 20,
{
}

} // verus!
