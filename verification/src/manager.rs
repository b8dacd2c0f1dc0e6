use vstd::prelude::*;

use crate::codec::{decode_response, parses_as_json, ResponsePayload};
use crate::errors::{SpawnError, SwitchError, WorkerError};
use crate::text::{spec_trim_end, str_eq};

verus! {

// ---------------------------------------------------------------------------
// Outcomes of the operations only the surrounding runtime can perform.
//
// The manager itself never spawns, writes, reads, polls or kills: the caller
// performs the operation the manager asks for and hands the outcome back, and
// the manager's verified transition decides what the outcome means.
// ---------------------------------------------------------------------------

/// What a non-blocking poll of the worker process reported.
#[derive(Clone, Copy, Debug)]
pub enum PollStatus {
    Alive,
    Exited,
}

/// What one attempt to spawn a worker process produced.
#[derive(Debug)]
pub enum SpawnOutcome {
    Spawned { id: u64 },
    Failed { reason: String },
}

/// Spec-level image of a spawn outcome.
pub enum SpawnV {
    Spawned(u64),
    Failed(Seq<char>),
}

impl View for SpawnOutcome {
    type V = SpawnV;

    open spec fn view(&self) -> SpawnV {
        match self {
            SpawnOutcome::Spawned { id } => SpawnV::Spawned(*id),
            SpawnOutcome::Failed { reason } => SpawnV::Failed(reason@),
        }
    }
}

/// What writing one command line to the worker's input produced.
#[derive(Clone, Copy, Debug)]
pub enum WriteOutcome {
    Written,
    PipeBroken,
}

/// What reading one response line from the worker's output produced.
#[derive(Debug)]
pub enum ReadOutcome {
    Line { text: String },
    Eof,
    ReadFailed,
    TimedOut,
}

/// Spec-level image of a read outcome.
pub enum ReadV {
    Line(Seq<char>),
    Eof,
    ReadFailed,
    TimedOut,
}

impl View for ReadOutcome {
    type V = ReadV;

    open spec fn view(&self) -> ReadV {
        match self {
            ReadOutcome::Line { text } => ReadV::Line(text@),
            ReadOutcome::Eof => ReadV::Eof,
            ReadOutcome::ReadFailed => ReadV::ReadFailed,
            ReadOutcome::TimedOut => ReadV::TimedOut,
        }
    }
}

/// Outcome of one write-then-read exchange. The read is only attempted when
/// the write went through, so `read` is present exactly when `write` is
/// `Written`.
#[derive(Debug)]
pub struct ExchangeOutcome {
    pub write: WriteOutcome,
    pub read: Option<ReadOutcome>,
}

pub open spec fn opt_spawn_view(s: Option<SpawnOutcome>) -> Option<SpawnV> {
    match s {
        Some(x) => Some(x@),
        None => None,
    }
}

pub open spec fn opt_read_view(r: Option<ReadOutcome>) -> Option<ReadV> {
    match r {
        Some(x) => Some(x@),
        None => None,
    }
}

// ---------------------------------------------------------------------------
// Handle and manager state.
// ---------------------------------------------------------------------------

/// The manager's record of one live worker process: its identity, the
/// (script, model) pair it was spawned with, and the time of the last
/// successful exchange.
#[derive(Debug)]
pub struct WorkerHandle {
    pub id: u64,
    pub script: String,
    pub model: String,
    pub last_used_ms: u64,
}

/// Spec-level image of a handle.
#[verifier::ext_equal]
pub struct HandleV {
    pub id: u64,
    pub script: Seq<char>,
    pub model: Seq<char>,
    pub last_used_ms: u64,
}

impl View for WorkerHandle {
    type V = HandleV;

    open spec fn view(&self) -> HandleV {
        HandleV {
            id: self.id,
            script: self.script@,
            model: self.model@,
            last_used_ms: self.last_used_ms,
        }
    }
}

/// The single slot that owns at most one worker at a time, together with the
/// configuration a spawn uses: the executable path, the currently recorded
/// (script, model) pair, and the idle threshold for reclamation.
#[derive(Debug)]
pub struct WorkerManager {
    pub executable: String,
    pub script: String,
    pub model: String,
    pub idle_threshold_ms: u64,
    pub worker: Option<WorkerHandle>,
}

/// Spec-level image of the manager.
#[verifier::ext_equal]
pub struct ManagerV {
    pub executable: Seq<char>,
    pub script: Seq<char>,
    pub model: Seq<char>,
    pub idle_threshold_ms: u64,
    pub worker: Option<HandleV>,
}

impl View for WorkerManager {
    type V = ManagerV;

    open spec fn view(&self) -> ManagerV {
        ManagerV {
            executable: self.executable@,
            script: self.script@,
            model: self.model@,
            idle_threshold_ms: self.idle_threshold_ms,
            worker: match self.worker {
                Some(h) => Some(h@),
                None => None,
            },
        }
    }
}

/// Spec-level image of what one full `process` exchange returned.
pub enum ProcV {
    Payload(Seq<char>),
    SpawnFailure(Seq<char>),
    Died,
    Decode(Seq<char>),
    Timeout,
}

pub open spec fn proc_view(r: Result<ResponsePayload, WorkerError>) -> ProcV {
    match r {
        Ok(p) => ProcV::Payload(p.text@),
        Err(WorkerError::SpawnFailure { reason }) => ProcV::SpawnFailure(reason@),
        Err(WorkerError::ProcessDied) => ProcV::Died,
        Err(WorkerError::ProtocolDecode { raw }) => ProcV::Decode(raw@),
        Err(WorkerError::Timeout) => ProcV::Timeout,
    }
}

// ---------------------------------------------------------------------------
// The transitions, as spec functions over the manager's image.
// ---------------------------------------------------------------------------

impl ManagerV {
    /// The live handle's pair always matches the last recorded pair: what is
    /// loaded is what the last successful spawn or switch asked for.
    pub open spec fn wf(self) -> bool {
        self.worker matches Some(h) ==> h.script == self.script && h.model == self.model
    }

    pub open spec fn with_worker(self, w: Option<HandleV>) -> ManagerV {
        ManagerV { worker: w, ..self }
    }

    /// A spawn is needed when no handle exists or the poll of the existing
    /// handle reported that its process has exited.
    pub open spec fn spawn_needed(self, poll: Option<PollStatus>) -> bool {
        self.worker is None || poll == Some(PollStatus::Exited)
    }

    /// Updates the live handle's last-activity timestamp.
    pub open spec fn touched(self, now_ms: u64) -> ManagerV {
        match self.worker {
            Some(h) => self.with_worker(Some(HandleV { last_used_ms: now_ms, ..h })),
            None => self,
        }
    }

    /// State after `ensure_started`, with the spawn failure reason if one
    /// occurred. A successful spawn installs a fresh handle carrying the
    /// recorded pair and the current time; a failed spawn leaves no handle.
    pub open spec fn spec_ensure_started(
        self,
        poll: Option<PollStatus>,
        spawn: Option<SpawnV>,
        now_ms: u64,
    ) -> (ManagerV, Option<Seq<char>>) {
        if !self.spawn_needed(poll) {
            (self, None)
        } else {
            match spawn {
                Some(SpawnV::Spawned(id)) => (
                    self.with_worker(
                        Some(
                            HandleV {
                                id,
                                script: self.script,
                                model: self.model,
                                last_used_ms: now_ms,
                            },
                        ),
                    ),
                    None,
                ),
                Some(SpawnV::Failed(reason)) => (self.with_worker(None), Some(reason)),
                None => (self, None),
            }
        }
    }

    /// State and result after one write-then-read exchange on a live handle.
    /// A broken pipe, end-of-stream or failed read means the process died and
    /// clears the handle; a timed-out read clears the handle too, since the
    /// protocol offers no mid-exchange recovery; a received line is decoded,
    /// and only a successfully decoded line refreshes the activity timestamp.
    pub open spec fn spec_exchange(
        self,
        write: WriteOutcome,
        read: Option<ReadV>,
        now_ms: u64,
    ) -> (ManagerV, ProcV) {
        if write is PipeBroken {
            (self.with_worker(None), ProcV::Died)
        } else {
            match read {
                Some(ReadV::Line(l)) => {
                    let t = spec_trim_end(l);
                    if parses_as_json(t) {
                        (self.touched(now_ms), ProcV::Payload(t))
                    } else {
                        (self, ProcV::Decode(t))
                    }
                },
                Some(ReadV::Eof) => (self.with_worker(None), ProcV::Died),
                Some(ReadV::ReadFailed) => (self.with_worker(None), ProcV::Died),
                Some(ReadV::TimedOut) => (self.with_worker(None), ProcV::Timeout),
                None => (self, ProcV::Died),
            }
        }
    }

    /// One full `process` call: ensure a live worker, then run the exchange.
    pub open spec fn spec_process(
        self,
        poll: Option<PollStatus>,
        spawn: Option<SpawnV>,
        write: WriteOutcome,
        read: Option<ReadV>,
        now_ms: u64,
    ) -> (ManagerV, ProcV) {
        let started = self.spec_ensure_started(poll, spawn, now_ms);
        match started.1 {
            Some(reason) => (started.0, ProcV::SpawnFailure(reason)),
            None => started.0.spec_exchange(write, read, now_ms),
        }
    }

    /// A switch restarts the worker only when a live handle carries a
    /// different pair than the requested one.
    pub open spec fn restart_needed(self, script: Seq<char>, model: Seq<char>) -> bool {
        self.worker matches Some(h) && !(h.script == script && h.model == model)
    }

    /// State after `switch_model`, with the spawn failure reason if one
    /// occurred. A live handle with the requested pair is left untouched; with
    /// no handle the pair is only recorded for the next spawn; otherwise the
    /// old worker is terminated and a replacement spawned with the new pair.
    pub open spec fn spec_switch(
        self,
        script: Seq<char>,
        model: Seq<char>,
        spawn: Option<SpawnV>,
        now_ms: u64,
    ) -> (ManagerV, Option<Seq<char>>) {
        if self.worker matches Some(h) && h.script == script && h.model == model {
            (self, None)
        } else if self.worker is None {
            (ManagerV { script, model, ..self }, None)
        } else {
            match spawn {
                Some(SpawnV::Spawned(id)) => (
                    ManagerV {
                        script,
                        model,
                        worker: Some(
                            HandleV { id, script, model, last_used_ms: now_ms },
                        ),
                        ..self
                    },
                    None,
                ),
                Some(SpawnV::Failed(reason)) => (
                    ManagerV { script, model, worker: None, ..self },
                    Some(reason),
                ),
                None => (self, None),
            }
        }
    }

    /// State after `shutdown`: the slot is empty, the configuration stays.
    pub open spec fn spec_shutdown(self) -> ManagerV {
        self.with_worker(None)
    }

    /// Whether the idle reaper must reclaim the worker at time `now_ms`.
    pub open spec fn reap_due_at(self, now_ms: u64) -> bool {
        self.worker matches Some(h) && now_ms - h.last_used_ms > self.idle_threshold_ms
    }

    /// State after one reaper tick at time `now_ms`.
    pub open spec fn spec_reap(self, now_ms: u64) -> ManagerV {
        if self.reap_due_at(now_ms) {
            self.with_worker(None)
        } else {
            self
        }
    }
}

// ---------------------------------------------------------------------------
// What a spawn looks like to the runtime.
// ---------------------------------------------------------------------------

/// Everything the runtime needs to spawn one worker process.
#[derive(Debug)]
pub struct SpawnCommand {
    pub executable: String,
    pub script: String,
    pub model: String,
}

impl SpawnCommand {
    /// The argument vector handed to the executable: exactly
    /// `[script, "--server", model]`.
    pub fn argv(&self) -> (v: Vec<String>)
        ensures
            v@.len() == 3,
            v@[0]@ == self.script@,
            v@[1]@ == "--server"@,
            v@[2]@ == self.model@,
    {
        let mut v: Vec<String> = Vec::new();
        v.push(self.script.clone());
        v.push(String::from_str("--server"));
        v.push(self.model.clone());
        v
    }
}

/// What a requested model switch asks the runtime to do.
#[derive(Debug)]
pub enum SwitchPlan {
    /// The live worker already carries the requested pair: touch nothing.
    Unchanged,
    /// No worker is running: the pair is only recorded, nothing is spawned.
    RecordOnly,
    /// Terminate the worker `kill_id` (best-effort) and spawn `command`.
    Restart { kill_id: u64, command: SpawnCommand },
}

// ---------------------------------------------------------------------------
// The executable manager.
// ---------------------------------------------------------------------------

impl WorkerManager {
    /// A fresh manager: configuration recorded, no worker running.
    pub fn new(executable: String, script: String, model: String, idle_threshold_ms: u64) -> (m:
        WorkerManager)
        ensures
            m@.executable == executable@,
            m@.script == script@,
            m@.model == model@,
            m@.idle_threshold_ms == idle_threshold_ms,
            m@.worker is None,
            m@.wf(),
    {
        WorkerManager { executable, script, model, idle_threshold_ms, worker: None }
    }

    /// Whether a worker is currently held.
    pub fn has_worker(&self) -> (r: bool)
        ensures
            r == (self@.worker is Some),
    {
        self.worker.is_some()
    }

    /// The identity of the held worker process, if any. This is the process
    /// identifier by which a stable identity across calls can be observed.
    pub fn worker_id(&self) -> (r: Option<u64>)
        ensures
            match self@.worker {
                Some(h) => r == Some(h.id),
                None => r is None,
            },
    {
        match &self.worker {
            Some(h) => Some(h.id),
            None => None,
        }
    }

    /// The spawn the runtime must perform when a worker is needed: the
    /// configured executable with the recorded pair.
    pub fn spawn_command(&self) -> (c: SpawnCommand)
        ensures
            c.executable@ == self@.executable,
            c.script@ == self@.script,
            c.model@ == self@.model,
    {
        SpawnCommand {
            executable: self.executable.clone(),
            script: self.script.clone(),
            model: self.model.clone(),
        }
    }

    /// Whether `ensure_started` will have to spawn, given what a poll of the
    /// current worker reported (`None` when no worker is held).
    pub fn spawn_needed(&self, poll: Option<PollStatus>) -> (r: bool)
        ensures
            r == self@.spawn_needed(poll),
    {
        match (&self.worker, poll) {
            (Option::None, _) => true,
            (Option::Some(_), Option::Some(PollStatus::Exited)) => true,
            _ => false,
        }
    }

    /// Installs or keeps a live worker. The caller polled the current worker
    /// (if any), performed the spawn exactly when `spawn_needed` said so, and
    /// hands both outcomes in; a live, non-exited worker is left untouched.
    pub fn ensure_started(
        &mut self,
        poll: Option<PollStatus>,
        spawn: Option<SpawnOutcome>,
        now_ms: u64,
    ) -> (r: Result<(), SpawnError>)
        requires
            old(self)@.wf(),
            old(self)@.worker is Some ==> poll is Some,
            spawn is Some <==> old(self)@.spawn_needed(poll),
        ensures
            final(self)@ == old(self)@.spec_ensure_started(poll, opt_spawn_view(spawn), now_ms).0,
            match old(self)@.spec_ensure_started(poll, opt_spawn_view(spawn), now_ms).1 {
                Some(reason) => r matches Err(e) && e.reason@ == reason,
                None => r is Ok,
            },
            final(self)@.wf(),
    {
        if self.spawn_needed(poll) {
            match spawn {
                Some(SpawnOutcome::Spawned { id }) => {
                    self.worker = Some(
                        WorkerHandle {
                            id,
                            script: self.script.clone(),
                            model: self.model.clone(),
                            last_used_ms: now_ms,
                        },
                    );
                    Ok(())
                },
                Some(SpawnOutcome::Failed { reason }) => {
                    self.worker = None;
                    Err(SpawnError { reason })
                },
                None => Ok(()),
            }
        } else {
            Ok(())
        }
    }

    /// Applies the outcome of one write-then-read exchange on the live
    /// worker. Death of the process (broken pipe, end-of-stream, failed read)
    /// and a timed-out read clear the handle, so the next call respawns; a
    /// received line is decoded, and a malformed line keeps the worker but
    /// reports the raw text.
    pub fn finish_exchange(&mut self, outcome: ExchangeOutcome, now_ms: u64) -> (r: Result<
        ResponsePayload,
        WorkerError,
    >)
        requires
            old(self)@.wf(),
            old(self)@.worker is Some,
            outcome.read is Some <==> outcome.write is Written,
        ensures
            final(self)@ == old(self)@.spec_exchange(
                outcome.write,
                opt_read_view(outcome.read),
                now_ms,
            ).0,
            proc_view(r) == old(self)@.spec_exchange(
                outcome.write,
                opt_read_view(outcome.read),
                now_ms,
            ).1,
            final(self)@.wf(),
    {
        match outcome.write {
            WriteOutcome::PipeBroken => {
                self.worker = None;
                Err(WorkerError::ProcessDied)
            },
            WriteOutcome::Written => match outcome.read {
                Some(ReadOutcome::Line { text }) => {
                    match decode_response(text.as_str()) {
                        Ok(payload) => {
                            let id = match &self.worker {
                                Some(h) => h.id,
                                None => 0,
                            };
                            self.worker = Some(
                                WorkerHandle {
                                    id,
                                    script: self.script.clone(),
                                    model: self.model.clone(),
                                    last_used_ms: now_ms,
                                },
                            );
                            Ok(payload)
                        },
                        Err(e) => Err(e),
                    }
                },
                Some(ReadOutcome::Eof) => {
                    self.worker = None;
                    Err(WorkerError::ProcessDied)
                },
                Some(ReadOutcome::ReadFailed) => {
                    self.worker = None;
                    Err(WorkerError::ProcessDied)
                },
                Some(ReadOutcome::TimedOut) => {
                    self.worker = None;
                    Err(WorkerError::Timeout)
                },
                None => Err(WorkerError::ProcessDied),
            },
        }
    }

    /// One full `process` call. The caller performed, in order: a poll of the
    /// held worker, the spawn where one was needed, and — once a live worker
    /// stood — the write of one encoded command line and the deadline-bounded
    /// read of one response line. The outcomes come in as arguments and this
    /// transition decides the result and the next state.
    pub fn process(
        &mut self,
        poll: Option<PollStatus>,
        spawn: Option<SpawnOutcome>,
        io: Option<ExchangeOutcome>,
        now_ms: u64,
    ) -> (r: Result<ResponsePayload, WorkerError>)
        requires
            old(self)@.wf(),
            old(self)@.worker is Some ==> poll is Some,
            spawn is Some <==> old(self)@.spawn_needed(poll),
            io is Some <==> (old(self)@.spawn_needed(poll) ==> spawn matches Some(
                SpawnOutcome::Spawned { .. },
            )),
            io matches Some(e) ==> (e.read is Some <==> e.write is Written),
        ensures
            ({
                let full = old(self)@.spec_process(
                    poll,
                    opt_spawn_view(spawn),
                    io_write(io),
                    io_read(io),
                    now_ms,
                );
                final(self)@ == full.0 && proc_view(r) == full.1
            }),
            final(self)@.wf(),
    {
        match self.ensure_started(poll, spawn, now_ms) {
            Err(e) => Err(WorkerError::SpawnFailure { reason: e.reason }),
            Ok(()) => match io {
                Some(outcome) => self.finish_exchange(outcome, now_ms),
                None => Err(WorkerError::ProcessDied),
            },
        }
    }

    /// What a switch to `(script, model)` asks the runtime to do.
    pub fn switch_decision(&self, script: &str, model: &str) -> (plan: SwitchPlan)
        ensures
            (plan is Unchanged) <==> (self@.worker matches Some(h) && h.script == script@
                && h.model == model@),
            (plan is RecordOnly) <==> self@.worker is None,
            plan matches SwitchPlan::Restart { kill_id, command } ==> {
                &&& self@.restart_needed(script@, model@)
                &&& self@.worker matches Some(h) && kill_id == h.id
                &&& command.executable@ == self@.executable
                &&& command.script@ == script@
                &&& command.model@ == model@
            },
    {
        match &self.worker {
            None => SwitchPlan::RecordOnly,
            Some(h) => {
                if str_eq(h.script.as_str(), script) && str_eq(h.model.as_str(), model) {
                    SwitchPlan::Unchanged
                } else {
                    SwitchPlan::Restart {
                        kill_id: h.id,
                        command: SpawnCommand {
                            executable: self.executable.clone(),
                            script: script.to_owned(),
                            model: model.to_owned(),
                        },
                    }
                }
            },
        }
    }

    /// Applies a model switch. When the live worker already carries the
    /// requested pair nothing changes — in particular the process identity is
    /// unchanged. With no worker the pair is only recorded. Otherwise the
    /// caller has terminated the old worker (best-effort) and spawned the
    /// replacement, whose outcome comes in as `spawn`.
    pub fn switch_model(
        &mut self,
        script: &str,
        model: &str,
        spawn: Option<SpawnOutcome>,
        now_ms: u64,
    ) -> (r: Result<(), SwitchError>)
        requires
            old(self)@.wf(),
            spawn is Some <==> old(self)@.restart_needed(script@, model@),
        ensures
            final(self)@ == old(self)@.spec_switch(
                script@,
                model@,
                opt_spawn_view(spawn),
                now_ms,
            ).0,
            match old(self)@.spec_switch(script@, model@, opt_spawn_view(spawn), now_ms).1 {
                Some(reason) => r matches Err(e) && e.reason@ == reason,
                None => r is Ok,
            },
            final(self)@.wf(),
    {
        let live_same = match &self.worker {
            Some(h) => str_eq(h.script.as_str(), script) && str_eq(h.model.as_str(), model),
            None => false,
        };
        if live_same {
            return Ok(());
        }
        self.script = script.to_owned();
        self.model = model.to_owned();
        match spawn {
            None => Ok(()),
            Some(SpawnOutcome::Spawned { id }) => {
                self.worker = Some(
                    WorkerHandle {
                        id,
                        script: script.to_owned(),
                        model: model.to_owned(),
                        last_used_ms: now_ms,
                    },
                );
                Ok(())
            },
            Some(SpawnOutcome::Failed { reason }) => {
                self.worker = None;
                Err(SwitchError { reason })
            },
        }
    }

    /// The worker the shutdown sequence must terminate, if any. The runtime
    /// writes the exit command (best-effort), waits a bounded grace period,
    /// then force-terminates, and finally calls `shutdown`.
    pub fn shutdown_plan(&self) -> (r: Option<u64>)
        ensures
            match self@.worker {
                Some(h) => r == Some(h.id),
                None => r is None,
            },
    {
        self.worker_id()
    }

    /// Clears the slot. Idempotent: with no worker held this changes nothing,
    /// and it never fails.
    pub fn shutdown(&mut self)
        ensures
            final(self)@ == old(self)@.spec_shutdown(),
            final(self)@.worker is None,
            final(self)@.wf(),
    {
        self.worker = None;
    }

    /// The worker the reaper must reclaim at time `now_ms`: the held worker,
    /// exactly when its idle time exceeds the configured threshold.
    pub fn reap_due(&self, now_ms: u64) -> (r: Option<u64>)
        ensures
            self@.reap_due_at(now_ms) ==> (self@.worker matches Some(h) && r == Some(h.id)),
            !self@.reap_due_at(now_ms) ==> r is None,
    {
        match &self.worker {
            Some(h) => {
                if now_ms > h.last_used_ms && now_ms - h.last_used_ms > self.idle_threshold_ms {
                    Some(h.id)
                } else {
                    None
                }
            },
            None => None,
        }
    }

    /// Applies one reaper tick: clears the handle exactly when the idle
    /// threshold is exceeded. The runtime terminates the reclaimed process as
    /// in `shutdown`.
    pub fn reap(&mut self, now_ms: u64)
        ensures
            final(self)@ == old(self)@.spec_reap(now_ms),
            old(self)@.wf() ==> final(self)@.wf(),
    {
        let due = self.reap_due(now_ms);
        if due.is_some() {
            self.worker = None;
        }
    }
}

/// The write half of an optional exchange outcome; an absent exchange is
/// treated as a broken pipe, which the callers' preconditions rule out
/// whenever the exchange actually took place.
pub open spec fn io_write(io: Option<ExchangeOutcome>) -> WriteOutcome {
    match io {
        Some(e) => e.write,
        None => WriteOutcome::PipeBroken,
    }
}

/// The read half of an optional exchange outcome.
pub open spec fn io_read(io: Option<ExchangeOutcome>) -> Option<ReadV> {
    match io {
        Some(e) => opt_read_view(e.read),
        None => None,
    }
}

} // verus!
