use vstd::prelude::*;

verus! {

/// Process state, mirroring LLDB's `StateType` enumeration.
///
/// The variants are declared in LLDB's order, so `State::X as u32` is LLDB's number for `X`
/// (`Invalid` is 0, `Suspended` is 11).
#[derive(Debug, Clone, Copy, PartialEq, Eq, Structural)]
pub enum State {
    Invalid,
    Unloaded,
    Connected,
    Attaching,
    Launching,
    Stopped,
    Running,
    Stepping,
    Crashed,
    Detached,
    Exited,
    Suspended,
}

/// LLDB's number for each process state.
pub open spec fn state_code(s: State) -> u32 {
    match s {
        State::Invalid => 0,
        State::Unloaded => 1,
        State::Connected => 2,
        State::Attaching => 3,
        State::Launching => 4,
        State::Stopped => 5,
        State::Running => 6,
        State::Stepping => 7,
        State::Crashed => 8,
        State::Detached => 9,
        State::Exited => 10,
        State::Suspended => 11,
    }
}

/// The process is halted where a user can inspect it.
pub open spec fn spec_state_is_stopped(s: State) -> bool {
    s == State::Stopped || s == State::Crashed || s == State::Suspended
}

/// The process is executing.
pub open spec fn spec_state_is_running(s: State) -> bool {
    s == State::Running || s == State::Stepping
}

impl State {
    /// Decodes LLDB's raw state number; a number LLDB does not define gives `Invalid`.
    pub fn from_raw(v: u32) -> (s: State)
        ensures
            v <= 11 ==> state_code(s) == v,
            v > 11 ==> s == State::Invalid,
    {
        match v {
            1 => State::Unloaded,
            2 => State::Connected,
            3 => State::Attaching,
            4 => State::Launching,
            5 => State::Stopped,
            6 => State::Running,
            7 => State::Stepping,
            8 => State::Crashed,
            9 => State::Detached,
            10 => State::Exited,
            11 => State::Suspended,
            _ => State::Invalid,
        }
    }

    /// `true` for `Stopped`, `Crashed` and `Suspended`.
    pub fn is_stopped(self) -> (b: bool)
        ensures
            b == spec_state_is_stopped(self),
    {
        match self {
            State::Stopped | State::Crashed | State::Suspended => true,
            _ => false,
        }
    }

    /// `true` for `Running` and `Stepping`.
    pub fn is_running(self) -> (b: bool)
        ensures
            b == spec_state_is_running(self),
    {
        match self {
            State::Running | State::Stepping => true,
            _ => false,
        }
    }
}

/// Stop reason of a thread, mirroring LLDB's `StopReason` enumeration.
///
/// The variants are declared in LLDB's order (`Invalid` is 0, `ThreadExiting` is 9).
#[derive(Debug, Clone, Copy, PartialEq, Eq, Structural)]
pub enum StopReason {
    Invalid,
    /// LLDB's `eStopReasonNone` (the name `None` is taken by `Option`).
    NoReason,
    Trace,
    Breakpoint,
    Watchpoint,
    Signal,
    Exception,
    Exec,
    PlanComplete,
    ThreadExiting,
}

/// LLDB's number for each stop reason.
pub open spec fn stop_reason_code(r: StopReason) -> u32 {
    match r {
        StopReason::Invalid => 0,
        StopReason::NoReason => 1,
        StopReason::Trace => 2,
        StopReason::Breakpoint => 3,
        StopReason::Watchpoint => 4,
        StopReason::Signal => 5,
        StopReason::Exception => 6,
        StopReason::Exec => 7,
        StopReason::PlanComplete => 8,
        StopReason::ThreadExiting => 9,
    }
}

impl StopReason {
    /// Decodes LLDB's raw stop-reason number; a number LLDB does not define gives `Invalid`.
    pub fn from_raw(v: u32) -> (r: StopReason)
        ensures
            v <= 9 ==> stop_reason_code(r) == v,
            v > 9 ==> r == StopReason::Invalid,
    {
        match v {
            1 => StopReason::NoReason,
            2 => StopReason::Trace,
            3 => StopReason::Breakpoint,
            4 => StopReason::Watchpoint,
            5 => StopReason::Signal,
            6 => StopReason::Exception,
            7 => StopReason::Exec,
            8 => StopReason::PlanComplete,
            9 => StopReason::ThreadExiting,
            _ => StopReason::Invalid,
        }
    }
}

/// Decoding a state's own number gives the state back, and distinct states have distinct
/// numbers.
pub proof fn lemma_state_code_roundtrip(s: State, t: State)
    ensures
        state_code(s) <= 11,
        state_code(s) == state_code(t) ==> s == t,
{
}

/// Decoding a stop reason's own number gives the stop reason back, and distinct stop reasons
/// have distinct numbers.
pub proof fn lemma_stop_reason_code_roundtrip(r: StopReason, q: StopReason)
    ensures
        stop_reason_code(r) <= 9,
        stop_reason_code(r) == stop_reason_code(q) ==> r == q,
{
}

/// No state counts as both stopped and running, and `Invalid` counts as neither.
pub proof fn lemma_stopped_and_running_exclusive(s: State)
    ensures
        !(spec_state_is_stopped(s) && spec_state_is_running(s)),
        !spec_state_is_stopped(State::Invalid),
        !spec_state_is_running(State::Invalid),
{
}

/// Exactly the states that LLDB numbers 5 (`Stopped`), 8 (`Crashed`) and 11 (`Suspended`) count
/// as stopped; every other state (`Invalid`, `Unloaded`, `Connected`, `Attaching`,
/// `Launching`, `Running`, `Stepping`, `Detached`, `Exited`) does not.
pub proof fn lemma_stopped_states(s: State)
    ensures
        spec_state_is_stopped(s) <==> (state_code(s) == 5 || state_code(s) == 8 || state_code(s)
            == 11),
        spec_state_is_stopped(s) <==> (s == State::Stopped || s == State::Crashed || s
            == State::Suspended),
        !spec_state_is_stopped(State::Detached),
        !spec_state_is_stopped(State::Exited),
        !spec_state_is_stopped(State::Running),
{
}

/// Exactly the states that LLDB numbers 6 (`Running`) and 7 (`Stepping`) count as running.
pub proof fn lemma_running_states(s: State)
    ensures
        spec_state_is_running(s) <==> (state_code(s) == 6 || state_code(s) == 7),
        spec_state_is_running(s) <==> (s == State::Running || s == State::Stepping),
{
}

/// Classifying a raw LLDB state number: it decodes to a stopped state exactly when it is 5, 8
/// or 11, and to a running state exactly when it is 6 or 7.
pub proof fn lemma_raw_state_classes(v: u32, s: State)
    requires
        v <= 11 ==> state_code(s) == v,
        v > 11 ==> s == State::Invalid,
    ensures
        spec_state_is_stopped(s) <==> (v == 5 || v == 8 || v == 11),
        spec_state_is_running(s) <==> (v == 6 || v == 7),
{
}

} // verus!
