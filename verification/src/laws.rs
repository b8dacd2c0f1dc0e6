use vstd::prelude::*;

use crate::codec::parses_as_json;
use crate::manager::{HandleV, ManagerV, PollStatus, ProcV, ReadV, SpawnV, WriteOutcome};
use crate::text::spec_trim_end;

verus! {

/// A model switch whose requested pair matches the live worker's pair changes
/// nothing: no restart is demanded, and the manager — the worker's identity
/// included — is exactly what it was, however often such a call is repeated.
pub proof fn lemma_switch_identical_pair_is_stable(
    m: ManagerV,
    script: Seq<char>,
    model: Seq<char>,
    t1: u64,
    t2: u64,
)
    requires
        m.wf(),
        m.worker matches Some(h) && h.script == script && h.model == model,
    ensures
        !m.restart_needed(script, model),
        m.spec_switch(script, model, None, t1).0 == m,
        m.spec_switch(script, model, None, t1).0.spec_switch(script, model, None, t2).0 == m,
{
}

/// A model switch to a pair that differs from the live worker's pair demands
/// a restart (the runtime terminates the prior process, as the switch plan's
/// `kill_id` says), and after the replacement spawn the manager holds exactly
/// the new worker, loaded with the requested pair.
pub proof fn lemma_switch_new_pair_restarts(
    m: ManagerV,
    script: Seq<char>,
    model: Seq<char>,
    id: u64,
    now_ms: u64,
)
    requires
        m.wf(),
        m.worker is Some,
        m.restart_needed(script, model),
    ensures
        ({
            let switched = m.spec_switch(script, model, Some(SpawnV::Spawned(id)), now_ms);
            &&& switched.1 is None
            &&& switched.0.script == script
            &&& switched.0.model == model
            &&& switched.0.worker == Some(
                HandleV { id, script, model, last_used_ms: now_ms },
            )
            &&& switched.0.wf()
        }),
{
}

/// When the worker process exits between two `process` calls, the next call
/// respawns on its own: a poll reporting the exit leads to a fresh spawn, and
/// with a well-formed response line the call succeeds, the caller never having
/// asked for the spawn.
pub proof fn lemma_process_respawns_after_exit(m: ManagerV, id: u64, line: Seq<char>, now_ms: u64)
    requires
        m.wf(),
        m.worker is Some,
        parses_as_json(spec_trim_end(line)),
    ensures
        ({
            let stepped = m.spec_process(
                Some(PollStatus::Exited),
                Some(SpawnV::Spawned(id)),
                WriteOutcome::Written,
                Some(ReadV::Line(line)),
                now_ms,
            );
            &&& stepped.1 == ProcV::Payload(spec_trim_end(line))
            &&& stepped.0.worker == Some(
                HandleV { id, script: m.script, model: m.model, last_used_ms: now_ms },
            )
            &&& stepped.0.wf()
        }),
{
}

/// `shutdown` is idempotent: the first call leaves no live worker, a second
/// call changes nothing further — and since `shutdown` returns nothing, the
/// second call trivially produces no error.
pub proof fn lemma_shutdown_idempotent(m: ManagerV)
    ensures
        m.spec_shutdown().worker is None,
        m.spec_shutdown().spec_shutdown() == m.spec_shutdown(),
        m.wf() ==> m.spec_shutdown().wf(),
{
}

/// An idle period beyond the configured threshold, with no exchange in
/// between, has the reaper clear the handle; the next `process` call then
/// observes that a spawn is needed and installs a fresh worker.
pub proof fn lemma_idle_reap_forces_fresh_spawn(m: ManagerV, now_ms: u64, id: u64, later_ms: u64)
    requires
        m.wf(),
        m.worker matches Some(h) && now_ms - h.last_used_ms > m.idle_threshold_ms,
    ensures
        m.reap_due_at(now_ms),
        m.spec_reap(now_ms).worker is None,
        m.spec_reap(now_ms).spawn_needed(None),
        m.spec_reap(now_ms).spec_ensure_started(None, Some(SpawnV::Spawned(id)), later_ms).0.worker
            == Some(HandleV { id, script: m.script, model: m.model, last_used_ms: later_ms }),
{
}

} // verus!
