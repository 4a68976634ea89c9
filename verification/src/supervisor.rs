//! A singleton subprocess supervisor: at most one managed external process at
//! a time, with `start` / `stop` / `status` operations.
//!
//! The supervisor owns a single slot holding an optional process handle. The
//! caller is expected to hold one supervisor behind a mutual-exclusion lock
//! and to keep the lock for the whole of each operation, so that the lock
//! totally orders all calls. The operating-system work itself (spawning,
//! killing, the cleanup sweep) happens outside; the supervisor decides what
//! may be done and records each outcome:
//!
//! - `start`: `check_start`, then, only if it allowed it, the spawn, then
//!   `finish_start` with the spawn's outcome;
//! - `stop`: `begin_stop`, which empties the slot and hands out the handle,
//!   then the kill and the cleanup sweep, then `finish_stop` with their
//!   outcomes;
//! - `status`: `status` alone.
//!
//! The spec functions `start_step` and `stop_step` state the whole of each
//! transition; the proof functions at the end state the supervisor's laws.

use vstd::prelude::*;

verus! {

/// A handle to one running managed process: the identifier the operating
/// system gave it, the command line it was launched with, and when.
#[derive(Debug, Clone, PartialEq, Eq)]
pub struct Handle {
    /// Operating-system identifier of the process.
    pub pid: u64,
    /// Path of the launched binary.
    pub command: String,
    /// Arguments the binary was launched with.
    pub args: Vec<String>,
    /// Launch time, in seconds since the Unix epoch.
    pub launched_at: u64,
}

/// What `status` reports: whether the slot holds a handle.
#[derive(Clone, Copy, Debug, PartialEq, Eq, Structural)]
pub enum Status {
    Idle,
    Running,
}

/// Why a `start` failed.
#[derive(Debug, Clone, PartialEq, Eq)]
pub enum StartError {
    /// The slot already held a handle; no spawn was attempted.
    AlreadyRunning,
    /// The spawn itself failed; the slot is still empty.
    SpawnFailed(String),
}

/// Why a `stop` failed.
#[derive(Debug, Clone, PartialEq, Eq)]
pub enum StopError {
    /// The slot was empty; there was nothing to stop.
    NotRunning,
    /// The kill itself failed; the handle is discarded all the same, so the
    /// supervisor reports `Idle` afterwards.
    StopFailed(String),
}

/// How a successful `stop` ended.
#[derive(Clone, Copy, Debug, PartialEq, Eq, Structural)]
pub enum StopOutcome {
    /// Kill and cleanup sweep both succeeded.
    Stopped,
    /// The process was killed, but the best-effort cleanup sweep failed.
    StoppedWithCleanupWarning,
}

/// The status a slot is reported as.
pub open spec fn spec_status(slot: Option<Handle>) -> Status {
    if slot is Some {
        Status::Running
    } else {
        Status::Idle
    }
}

/// One whole `start` operation on a slot, given what a spawn would return:
/// the slot afterwards and the result handed to the caller. A spawn outcome
/// is consulted only when the slot is empty.
pub open spec fn start_step(slot: Option<Handle>, spawn: Result<Handle, String>) -> (Option<
    Handle,
>, Result<u64, StartError>) {
    match slot {
        Some(h) => (Some(h), Err(StartError::AlreadyRunning)),
        None => match spawn {
            Ok(h) => (Some(h), Ok(h.pid)),
            Err(e) => (None, Err(StartError::SpawnFailed(e))),
        },
    }
}

/// What a `stop` reports once the handle has been taken, given the kill's
/// outcome and whether the cleanup sweep succeeded.
pub open spec fn stop_result(kill: Result<(), String>, cleanup_ok: bool) -> Result<
    StopOutcome,
    StopError,
> {
    match kill {
        Ok(u) => if cleanup_ok {
            Ok(StopOutcome::Stopped)
        } else {
            Ok(StopOutcome::StoppedWithCleanupWarning)
        },
        Err(e) => Err(StopError::StopFailed(e)),
    }
}

/// One whole `stop` operation on a slot: the slot afterwards (always empty)
/// and the result handed to the caller. Kill and cleanup outcomes are
/// consulted only when the slot held a handle.
pub open spec fn stop_step(slot: Option<Handle>, kill: Result<(), String>, cleanup_ok: bool) -> (
    Option<Handle>,
    Result<StopOutcome, StopError>,
) {
    match slot {
        Some(h) => (None, stop_result(kill, cleanup_ok)),
        None => (None, Err(StopError::NotRunning)),
    }
}

/// The supervisor: a single slot with at most one process handle in it.
pub struct Supervisor {
    slot: Option<Handle>,
}

impl View for Supervisor {
    type V = Option<Handle>;

    closed spec fn view(&self) -> Option<Handle> {
        self.slot
    }
}

impl Supervisor {
    /// A fresh supervisor: nothing is running.
    pub fn new() -> (s: Self)
        ensures
            s@ is None,
    {
        Supervisor { slot: None }
    }

    /// Report whether a managed process is considered running. Reads only.
    pub fn status(&self) -> (st: Status)
        ensures
            st == spec_status(self@),
    {
        match &self.slot {
            Some(_) => Status::Running,
            None => Status::Idle,
        }
    }

    /// The side-effect-free rejection in front of a spawn: allows a start
    /// exactly when the slot is empty. The caller may spawn only after `Ok`,
    /// still holding the lock.
    pub fn check_start(&self) -> (r: Result<(), StartError>)
        ensures
            r is Ok <==> self@ is None,
            self@ is Some ==> r == Err::<(), StartError>(StartError::AlreadyRunning),
    {
        match &self.slot {
            Some(_) => Err(StartError::AlreadyRunning),
            None => Ok(()),
        }
    }

    /// Record the outcome of a spawn, completing a `start`: on success the
    /// handle goes into the slot and its identifier is returned; on failure
    /// the slot stays empty. If the slot is (against the protocol) already
    /// occupied, the start is rejected and nothing changes.
    pub fn finish_start(&mut self, spawn: Result<Handle, String>) -> (r: Result<u64, StartError>)
        ensures
            final(self)@ == start_step(old(self)@, spawn).0,
            r == start_step(old(self)@, spawn).1,
    {
        match &self.slot {
            Some(_) => Err(StartError::AlreadyRunning),
            None => match spawn {
                Ok(h) => {
                    let pid = h.pid;
                    self.slot = Some(h);
                    Ok(pid)
                },
                Err(e) => Err(StartError::SpawnFailed(e)),
            },
        }
    }

    /// Begin a `stop`: empty the slot and hand the handle out for killing.
    /// Fails with `NotRunning` on an empty slot, changing nothing. The handle
    /// leaves the slot before the kill is attempted, so the supervisor never
    /// reports `Running` for a process a stop has already been accepted for.
    pub fn begin_stop(&mut self) -> (r: Result<Handle, StopError>)
        ensures
            final(self)@ is None,
            r == (match old(self)@ {
                Some(h) => Ok::<Handle, StopError>(h),
                None => Err::<Handle, StopError>(StopError::NotRunning),
            }),
    {
        let mut taken: Option<Handle> = None;
        core::mem::swap(&mut self.slot, &mut taken);
        match taken {
            Some(h) => Ok(h),
            None => Err(StopError::NotRunning),
        }
    }
}

/// Complete a `stop` whose handle `begin_stop` handed out: report how the
/// kill and the best-effort cleanup sweep went. A failed sweep does not
/// revert the stop; it turns the success into `StoppedWithCleanupWarning`.
pub fn finish_stop(kill: Result<(), String>, cleanup_ok: bool) -> (r: Result<
    StopOutcome,
    StopError,
>)
    ensures
        r == stop_result(kill, cleanup_ok),
{
    match kill {
        Ok(_) => if cleanup_ok {
            Ok(StopOutcome::Stopped)
        } else {
            Ok(StopOutcome::StoppedWithCleanupWarning)
        },
        Err(e) => Err(StopError::StopFailed(e)),
    }
}

/// The HTTP status a start's result maps to: success and rejection of a
/// request that changed nothing are told apart from a failed spawn.
pub fn start_status_code(r: &Result<u64, StartError>) -> (c: u16)
    ensures
        r is Ok ==> c == 200,
        r matches Err(StartError::AlreadyRunning) ==> c == 409,
        r matches Err(StartError::SpawnFailed(e)) ==> c == 500,
{
    match r {
        Ok(_) => 200,
        Err(StartError::AlreadyRunning) => 409,
        Err(StartError::SpawnFailed(_)) => 500,
    }
}

/// The HTTP status a stop's result maps to: a stop that did nothing is a
/// conflict; a failed kill, and a partial success whose cleanup sweep
/// failed, are server errors.
pub fn stop_status_code(r: &Result<StopOutcome, StopError>) -> (c: u16)
    ensures
        r matches Ok(StopOutcome::Stopped) ==> c == 200,
        r matches Ok(StopOutcome::StoppedWithCleanupWarning) ==> c == 500,
        r matches Err(StopError::NotRunning) ==> c == 409,
        r matches Err(StopError::StopFailed(e)) ==> c == 500,
{
    match r {
        Ok(StopOutcome::Stopped) => 200,
        Ok(StopOutcome::StoppedWithCleanupWarning) => 500,
        Err(StopError::NotRunning) => 409,
        Err(StopError::StopFailed(_)) => 500,
    }
}

/// One call against the supervisor, together with what the outside world
/// would have answered: the spawn outcome a `start` would see, or the kill
/// and cleanup outcomes a `stop` would see.
pub enum Event {
    Start(Result<Handle, String>),
    Stop(Result<(), String>, bool),
    StatusQuery,
}

/// The slot after one event.
pub open spec fn next_slot(slot: Option<Handle>, e: Event) -> Option<Handle> {
    match e {
        Event::Start(spawn) => start_step(slot, spawn).0,
        Event::Stop(kill, cleanup_ok) => stop_step(slot, kill, cleanup_ok).0,
        Event::StatusQuery => slot,
    }
}

/// The slot after a whole sequence of events, in order.
pub open spec fn run(slot: Option<Handle>, events: Seq<Event>) -> Option<Handle>
    decreases events.len(),
{
    if events.len() == 0 {
        slot
    } else {
        run(next_slot(slot, events[0]), events.drop_first())
    }
}

/// The results that a sequence of `start` calls would see, each with the
/// spawn outcome it would get were it allowed to spawn, serialized against
/// one slot.
pub open spec fn start_outputs(slot: Option<Handle>, spawns: Seq<Result<Handle, String>>) -> Seq<
    Result<u64, StartError>,
>
    decreases spawns.len(),
{
    if spawns.len() == 0 {
        Seq::empty()
    } else {
        seq![start_step(slot, spawns[0]).1] + start_outputs(
            start_step(slot, spawns[0]).0,
            spawns.drop_first(),
        )
    }
}

/// A start succeeds exactly when the supervisor was idle and the spawn
/// succeeded; and then the stored handle is the spawned one and the caller
/// gets its identifier.
pub proof fn lemma_start_success(slot: Option<Handle>, spawn: Result<Handle, String>)
    ensures
        start_step(slot, spawn).1 is Ok <==> (slot is None && spawn is Ok),
        (slot is None && spawn is Ok) ==> start_step(slot, spawn) == (
            Some(spawn->Ok_0),
            Ok::<u64, StartError>(spawn->Ok_0.pid),
        ),
{
}

/// Over any sequence of calls: a start made after it succeeds exactly when
/// the state those calls left behind is idle and the spawn succeeds.
pub proof fn lemma_start_success_after(
    slot: Option<Handle>,
    events: Seq<Event>,
    spawn: Result<Handle, String>,
)
    ensures
        start_step(run(slot, events), spawn).1 is Ok <==> (run(slot, events) is None
            && spawn is Ok),
{
    lemma_start_success(run(slot, events), spawn);
}

/// Starting while a process runs always fails with `AlreadyRunning`, changes
/// nothing, and consults no spawn outcome at all: no second process is
/// spawned.
pub proof fn lemma_start_while_running(h: Handle, spawn: Result<Handle, String>)
    ensures
        start_step(Some(h), spawn).0 == Some(h),
        start_step(Some(h), spawn).1 == Err::<u64, StartError>(StartError::AlreadyRunning),
        forall|other: Result<Handle, String>| #[trigger]
            start_step(Some(h), other) == start_step(Some(h), spawn),
{
}

/// Stopping while idle always fails with `NotRunning`, changes nothing, and
/// consults no kill or cleanup outcome at all: nothing is killed.
pub proof fn lemma_stop_while_idle(kill: Result<(), String>, cleanup_ok: bool)
    ensures
        stop_step(None, kill, cleanup_ok).0 is None,
        stop_step(None, kill, cleanup_ok).1 == Err::<StopOutcome, StopError>(StopError::NotRunning),
        forall|k2: Result<(), String>, c2: bool| #[trigger]
            stop_step(None, k2, c2) == stop_step(None, kill, cleanup_ok),
{
}

/// After a successful start, the supervisor stays running — with the very
/// same handle — through any sequence of calls that contains no stop, so
/// `status` reports `Running` throughout.
pub proof fn lemma_running_until_stop(slot: Option<Handle>, events: Seq<Event>)
    requires
        slot is Some,
        forall|i: int| 0 <= i < events.len() ==> !(#[trigger] events[i] is Stop),
    ensures
        run(slot, events) == slot,
        spec_status(run(slot, events)) == Status::Running,
    decreases events.len(),
{
    if events.len() > 0 {
        assert(next_slot(slot, events[0]) == slot);
        assert forall|i: int| 0 <= i < events.drop_first().len() implies !(
        #[trigger] events.drop_first()[i] is Stop) by {
            assert(events.drop_first()[i] == events[i + 1]);
        }
        lemma_running_until_stop(slot, events.drop_first());
    }
}

/// While a process runs, every one of a sequence of start calls fails with
/// `AlreadyRunning` and the slot never changes.
pub proof fn lemma_starts_while_running(h: Handle, spawns: Seq<Result<Handle, String>>)
    ensures
        start_outputs(Some(h), spawns).len() == spawns.len(),
        forall|i: int| 0 <= i < spawns.len() ==> #[trigger] start_outputs(Some(h), spawns)[i]
            == Err::<u64, StartError>(StartError::AlreadyRunning),
    decreases spawns.len(),
{
    if spawns.len() > 0 {
        lemma_starts_while_running(h, spawns.drop_first());
        assert forall|i: int| 0 <= i < spawns.len() implies #[trigger] start_outputs(
            Some(h),
            spawns,
        )[i] == Err::<u64, StartError>(StartError::AlreadyRunning) by {
            if i > 0 {
                assert(start_outputs(Some(h), spawns)[i] == start_outputs(
                    Some(h),
                    spawns.drop_first(),
                )[i - 1]);
            }
        }
    }
}

/// Start calls racing against a single idle supervisor, totally ordered by
/// the lock: the first spawn is the only one attempted, and if it succeeds,
/// that start alone succeeds and every later one observes `AlreadyRunning`.
pub proof fn lemma_racing_starts(spawns: Seq<Result<Handle, String>>)
    requires
        spawns.len() >= 1,
        spawns[0] is Ok,
    ensures
        start_outputs(None, spawns).len() == spawns.len(),
        start_outputs(None, spawns)[0] == Ok::<u64, StartError>(spawns[0]->Ok_0.pid),
        forall|i: int| 1 <= i < spawns.len() ==> #[trigger] start_outputs(None, spawns)[i]
            == Err::<u64, StartError>(StartError::AlreadyRunning),
{
    let h0 = spawns[0]->Ok_0;
    assert(start_step(None, spawns[0]) == (Some(h0), Ok::<u64, StartError>(h0.pid)));
    lemma_starts_while_running(h0, spawns.drop_first());
    assert forall|i: int| 1 <= i < spawns.len() implies #[trigger] start_outputs(None, spawns)[i]
        == Err::<u64, StartError>(StartError::AlreadyRunning) by {
        assert(start_outputs(None, spawns)[i] == start_outputs(Some(h0), spawns.drop_first())[i
            - 1]);
    }
}

} // verus!
