use vision_match::errors::WorkerError;
use vision_match::manager::{
    ExchangeOutcome, PollStatus, ReadOutcome, SpawnOutcome, SwitchPlan, WorkerManager, WriteOutcome,
};

const RESPONSE: &str =
    "{\"prediction\":\"cat\",\"confidence\":0.91,\"class_probabilities\":{\"cat\":0.91,\"dog\":0.09}}\n";

fn fresh_manager() -> WorkerManager {
    WorkerManager::new(
        "/usr/bin/python3".to_string(),
        "script.py".to_string(),
        "model.bin".to_string(),
        1_800_000,
    )
}

fn good_io() -> Option<ExchangeOutcome> {
    Some(ExchangeOutcome {
        write: WriteOutcome::Written,
        read: Some(ReadOutcome::Line { text: RESPONSE.to_string() }),
    })
}

#[test]
fn first_process_call_spawns_and_returns_payload() {
    let mut m = fresh_manager();
    assert!(!m.has_worker());
    assert!(m.spawn_needed(None));
    let cmd = m.spawn_command();
    assert_eq!(cmd.executable, "/usr/bin/python3");
    assert_eq!(cmd.argv(), vec!["script.py", "--server", "model.bin"]);

    let r = m.process(None, Some(SpawnOutcome::Spawned { id: 1 }), good_io(), 1_000);
    let payload = r.expect("the exchange succeeded");
    assert_eq!(
        payload.text,
        "{\"prediction\":\"cat\",\"confidence\":0.91,\"class_probabilities\":{\"cat\":0.91,\"dog\":0.09}}"
    );
    assert_eq!(m.worker_id(), Some(1));
}

#[test]
fn reusing_a_live_worker_spawns_nothing() {
    let mut m = fresh_manager();
    m.process(None, Some(SpawnOutcome::Spawned { id: 1 }), good_io(), 1_000).unwrap();
    assert!(!m.spawn_needed(Some(PollStatus::Alive)));
    let r = m.process(Some(PollStatus::Alive), None, good_io(), 2_000);
    assert!(r.is_ok());
    assert_eq!(m.worker_id(), Some(1));
}

#[test]
fn switching_to_the_same_pair_keeps_the_process() {
    let mut m = fresh_manager();
    m.process(None, Some(SpawnOutcome::Spawned { id: 7 }), good_io(), 1_000).unwrap();
    for _ in 0..2 {
        match m.switch_decision("script.py", "model.bin") {
            SwitchPlan::Unchanged => {}
            other => panic!("expected no restart, got {:?}", other),
        }
        m.switch_model("script.py", "model.bin", None, 2_000).unwrap();
        assert_eq!(m.worker_id(), Some(7));
    }
}

#[test]
fn switching_to_a_new_pair_restarts_with_new_arguments() {
    let mut m = fresh_manager();
    m.process(None, Some(SpawnOutcome::Spawned { id: 7 }), good_io(), 1_000).unwrap();
    match m.switch_decision("scriptB.py", "modelB.bin") {
        SwitchPlan::Restart { kill_id, command } => {
            assert_eq!(kill_id, 7);
            assert_eq!(command.executable, "/usr/bin/python3");
            assert_eq!(command.argv(), vec!["scriptB.py", "--server", "modelB.bin"]);
        }
        other => panic!("expected a restart, got {:?}", other),
    }
    m.switch_model("scriptB.py", "modelB.bin", Some(SpawnOutcome::Spawned { id: 8 }), 2_000)
        .unwrap();
    assert_eq!(m.worker_id(), Some(8));
}

#[test]
fn switching_with_no_worker_only_records_the_pair() {
    let mut m = fresh_manager();
    match m.switch_decision("scriptB.py", "modelB.bin") {
        SwitchPlan::RecordOnly => {}
        other => panic!("expected record-only, got {:?}", other),
    }
    m.switch_model("scriptB.py", "modelB.bin", None, 500).unwrap();
    assert!(!m.has_worker());
    let cmd = m.spawn_command();
    assert_eq!(cmd.argv(), vec!["scriptB.py", "--server", "modelB.bin"]);
}

#[test]
fn a_dead_worker_is_respawned_on_the_next_call() {
    let mut m = fresh_manager();
    m.process(None, Some(SpawnOutcome::Spawned { id: 1 }), good_io(), 1_000).unwrap();
    assert!(m.spawn_needed(Some(PollStatus::Exited)));
    let r = m.process(
        Some(PollStatus::Exited),
        Some(SpawnOutcome::Spawned { id: 2 }),
        good_io(),
        2_000,
    );
    assert!(r.is_ok());
    assert_eq!(m.worker_id(), Some(2));
}

#[test]
fn spawn_failure_reports_the_reason_and_leaves_no_worker() {
    let mut m = fresh_manager();
    let r = m.process(
        None,
        Some(SpawnOutcome::Failed { reason: "no such file".to_string() }),
        None,
        1_000,
    );
    match r {
        Err(WorkerError::SpawnFailure { reason }) => assert_eq!(reason, "no such file"),
        other => panic!("expected a spawn failure, got {:?}", other),
    }
    assert!(!m.has_worker());
}

#[test]
fn a_broken_pipe_clears_the_handle() {
    let mut m = fresh_manager();
    let io = Some(ExchangeOutcome { write: WriteOutcome::PipeBroken, read: None });
    let r = m.process(None, Some(SpawnOutcome::Spawned { id: 1 }), io, 1_000);
    assert!(matches!(r, Err(WorkerError::ProcessDied)));
    assert!(!m.has_worker());
}

#[test]
fn end_of_stream_clears_the_handle() {
    let mut m = fresh_manager();
    let io = Some(ExchangeOutcome { write: WriteOutcome::Written, read: Some(ReadOutcome::Eof) });
    let r = m.process(None, Some(SpawnOutcome::Spawned { id: 1 }), io, 1_000);
    assert!(matches!(r, Err(WorkerError::ProcessDied)));
    assert!(!m.has_worker());
}

#[test]
fn a_timed_out_read_clears_the_handle() {
    let mut m = fresh_manager();
    let io = Some(ExchangeOutcome {
        write: WriteOutcome::Written,
        read: Some(ReadOutcome::TimedOut),
    });
    let r = m.process(None, Some(SpawnOutcome::Spawned { id: 1 }), io, 1_000);
    assert!(matches!(r, Err(WorkerError::Timeout)));
    assert!(!m.has_worker());
}

#[test]
fn a_malformed_response_keeps_the_worker_and_the_raw_text() {
    let mut m = fresh_manager();
    let io = Some(ExchangeOutcome {
        write: WriteOutcome::Written,
        read: Some(ReadOutcome::Line { text: "{not valid json\n".to_string() }),
    });
    let r = m.process(None, Some(SpawnOutcome::Spawned { id: 1 }), io, 1_000);
    match r {
        Err(WorkerError::ProtocolDecode { raw }) => assert_eq!(raw, "{not valid json"),
        other => panic!("expected a decode error, got {:?}", other),
    }
    assert_eq!(m.worker_id(), Some(1));
}

#[test]
fn a_failed_read_clears_the_handle() {
    let mut m = fresh_manager();
    let io = Some(ExchangeOutcome {
        write: WriteOutcome::Written,
        read: Some(ReadOutcome::ReadFailed),
    });
    let r = m.process(None, Some(SpawnOutcome::Spawned { id: 1 }), io, 1_000);
    assert!(matches!(r, Err(WorkerError::ProcessDied)));
    assert!(!m.has_worker());
}

#[test]
fn a_failed_replacement_spawn_fails_the_switch() {
    let mut m = fresh_manager();
    m.process(None, Some(SpawnOutcome::Spawned { id: 1 }), good_io(), 1_000).unwrap();
    let r = m.switch_model(
        "scriptB.py",
        "modelB.bin",
        Some(SpawnOutcome::Failed { reason: "exec format error".to_string() }),
        2_000,
    );
    let err = r.unwrap_err();
    assert_eq!(err.reason, "exec format error");
    assert!(!m.has_worker());
    // the new pair is recorded all the same, so the next spawn uses it
    assert_eq!(m.spawn_command().argv(), vec!["scriptB.py", "--server", "modelB.bin"]);
}

#[test]
fn shutdown_is_idempotent() {
    let mut m = fresh_manager();
    m.process(None, Some(SpawnOutcome::Spawned { id: 1 }), good_io(), 1_000).unwrap();
    assert_eq!(m.shutdown_plan(), Some(1));
    m.shutdown();
    assert!(!m.has_worker());
    assert_eq!(m.shutdown_plan(), None);
    m.shutdown();
    assert!(!m.has_worker());
}

#[test]
fn an_idle_worker_is_reaped_and_the_next_call_spawns_anew() {
    let mut m = WorkerManager::new(
        "/usr/bin/python3".to_string(),
        "script.py".to_string(),
        "model.bin".to_string(),
        100,
    );
    m.process(None, Some(SpawnOutcome::Spawned { id: 1 }), good_io(), 1_000).unwrap();
    assert_eq!(m.reap_due(1_050), None);
    m.reap(1_050);
    assert!(m.has_worker());
    assert_eq!(m.reap_due(1_150), Some(1));
    m.reap(1_150);
    assert!(!m.has_worker());
    let r = m.process(None, Some(SpawnOutcome::Spawned { id: 2 }), good_io(), 1_200);
    assert!(r.is_ok());
    assert_eq!(m.worker_id(), Some(2));
}

#[test]
fn a_successful_exchange_refreshes_the_idle_clock() {
    let mut m = WorkerManager::new(
        "/usr/bin/python3".to_string(),
        "script.py".to_string(),
        "model.bin".to_string(),
        100,
    );
    m.process(None, Some(SpawnOutcome::Spawned { id: 1 }), good_io(), 1_000).unwrap();
    m.process(Some(PollStatus::Alive), None, good_io(), 1_090).unwrap();
    assert_eq!(m.reap_due(1_150), None);
    assert_eq!(m.reap_due(1_191), Some(1));
}
