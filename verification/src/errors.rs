use vstd::prelude::*;

verus! {

/// Process creation failed: missing executable, bad permissions, or the
/// operating system refused to start the worker. Fatal to the call that
/// triggered the spawn.
#[derive(Debug)]
pub struct SpawnError {
    pub reason: String,
}

/// A model switch failed; the only failing step is spawning the replacement
/// worker, since termination of the old worker is best-effort.
#[derive(Debug)]
pub struct SwitchError {
    pub reason: String,
}

/// Everything a `process` exchange can fail with.
#[derive(Debug)]
pub enum WorkerError {
    /// The worker could not be spawned.
    SpawnFailure { reason: String },
    /// A write failed, a read reached end-of-stream, or a poll reported exit:
    /// the worker process is gone. The manager clears its handle; the next
    /// call respawns.
    ProcessDied,
    /// The response line is not a well-formed payload; `raw` keeps the exact
    /// text that failed to parse.
    ProtocolDecode { raw: String },
    /// The response did not arrive within the read deadline; the stalled
    /// worker is abandoned and the handle cleared.
    Timeout,
}

} // verus!
