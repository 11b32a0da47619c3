use token_hub::audit::sink::{AuditCommand, AuditRecord, AuditWorker, WorkerEvent};

fn usage(i: u32) -> WorkerEvent<u32, AuditRecord> {
    WorkerEvent::Command(AuditCommand::UsageLog(i))
}

fn record(action: &str) -> AuditRecord {
    AuditRecord {
        actor_kind: "admin".to_string(),
        actor_id: Some("adm_1".to_string()),
        action: action.to_string(),
        target_kind: None,
        target_id: None,
        detail: None,
        ip: None,
        created_at: 1_700_000_000_000,
    }
}

#[test]
fn worker_batches_and_flushes() {
    let mut w: AuditWorker<u32, AuditRecord> = AuditWorker::new(5);
    let mut flushed = Vec::new();
    for i in 0..5 {
        let a = w.step(usage(i));
        flushed.extend(a.flush_usage);
    }
    assert_eq!(flushed.len(), 5, "all 5 logs should be flushed");
    assert_eq!(flushed, vec![0, 1, 2, 3, 4]);
}

#[test]
fn worker_flushes_on_interval() {
    let mut w: AuditWorker<u32, AuditRecord> = AuditWorker::new(10000);
    let a = w.step(usage(7));
    assert!(a.flush_usage.is_empty());
    let t = w.step(WorkerEvent::Tick);
    assert_eq!(t.flush_usage.len(), 1, "log should be flushed by interval");
    assert!(!t.exit);
    let again = w.step(WorkerEvent::Tick);
    assert!(again.flush_usage.is_empty());
}

#[test]
fn worker_drains_on_close() {
    let mut w: AuditWorker<u32, AuditRecord> = AuditWorker::new(10000);
    w.step(usage(1));
    w.step(WorkerEvent::Command(AuditCommand::AuditLog(record("tun.open"))));
    let a = w.step(WorkerEvent::Closed);
    assert_eq!(a.flush_usage.len(), 1, "log should be drained on close");
    assert_eq!(a.flush_audit.len(), 1);
    assert_eq!(a.flush_audit[0].action, "tun.open");
    assert!(a.exit);
}

#[test]
fn audit_batches_are_separate_from_usage_batches() {
    let mut w: AuditWorker<u32, AuditRecord> = AuditWorker::new(2);
    assert!(w.step(WorkerEvent::Command(AuditCommand::AuditLog(record("a")))).flush_audit.is_empty());
    assert!(w.step(usage(1)).flush_usage.is_empty());
    let a = w.step(WorkerEvent::Command(AuditCommand::AuditLog(record("b"))));
    assert_eq!(a.flush_audit.iter().map(|r| r.action.as_str()).collect::<Vec<_>>(), vec!["a", "b"]);
    assert!(a.flush_usage.is_empty());
}
