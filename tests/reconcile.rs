use acmed_dns_helper::reconcile::{
    Action, BackendError, DeleteFailure, Event, Operation, ReconcileError, Reconciler, TxtRecord,
    SETTLE_DELAY_SECS,
};

fn record(id: &str, value: &str) -> TxtRecord {
    TxtRecord {
        record_id: id.to_string(),
        name: "_acme-challenge".to_string(),
        record_type: "TXT".to_string(),
        value: value.to_string(),
    }
}

fn error(message: &str) -> BackendError {
    BackendError { code: Some(8), message: message.to_string() }
}

/// A provider that keeps its records and grants every request, with a log of
/// the writes it saw.
struct Store {
    records: Vec<TxtRecord>,
    creates: Vec<(String, String, String, String)>,
    deletes: Vec<(String, String)>,
    settled: u64,
    next_id: u64,
}

impl Store {
    fn new(records: Vec<TxtRecord>) -> Store {
        Store { records, creates: vec![], deletes: vec![], settled: 0, next_id: 100 }
    }

    fn run(&mut self, operation: Operation, domain: &str, proof: &str) -> Result<(), ReconcileError> {
        let (mut reconciler, mut action) = Reconciler::new(operation, domain, proof);
        loop {
            let event = match action {
                Action::ListRecords { .. } => Event::Listed(Ok(self.records.clone())),
                Action::CreateRecord { zone, record_name, record_type, value } => {
                    self.next_id += 1;
                    self.records.push(TxtRecord {
                        record_id: self.next_id.to_string(),
                        name: record_name.clone(),
                        record_type: record_type.clone(),
                        value: value.clone(),
                    });
                    self.creates.push((zone, record_name, record_type, value));
                    Event::Created(Ok(()))
                }
                Action::DeleteRecord { zone, record_id } => {
                    self.records.retain(|r| r.record_id != record_id);
                    self.deletes.push((zone, record_id));
                    Event::Deleted(Ok(()))
                }
                Action::Settle { seconds } => {
                    self.settled += seconds;
                    Event::Settled
                }
                Action::Finish(result) => return result,
            };
            action = reconciler.advance(event);
        }
    }
}

#[test]
fn provision_creates_the_record_and_waits() {
    let mut store = Store::new(vec![]);
    assert_eq!(store.run(Operation::Provision, "test.example.com", "abc123"), Ok(()));
    assert_eq!(
        store.creates,
        vec![(
            "example.com".to_string(),
            "_acme-challenge.test".to_string(),
            "TXT".to_string(),
            "abc123".to_string()
        )]
    );
    assert!(store.deletes.is_empty());
    assert_eq!(store.settled, 5);
}

#[test]
fn provision_step_by_step() {
    let (mut r, action) = Reconciler::new(Operation::Provision, "test.example.com", "abc123");
    assert_eq!(
        action,
        Action::ListRecords {
            zone: "example.com".to_string(),
            record_name: "_acme-challenge.test".to_string()
        }
    );
    let action = r.advance(Event::Listed(Ok(vec![])));
    assert_eq!(
        action,
        Action::CreateRecord {
            zone: "example.com".to_string(),
            record_name: "_acme-challenge.test".to_string(),
            record_type: "TXT".to_string(),
            value: "abc123".to_string()
        }
    );
    assert_eq!(r.advance(Event::Created(Ok(()))), Action::Settle { seconds: SETTLE_DELAY_SECS });
    assert_eq!(SETTLE_DELAY_SECS, 5);
    assert_eq!(r.advance(Event::Settled), Action::Finish(Ok(())));
}

#[test]
fn provision_with_matching_record_writes_nothing() {
    let mut store = Store::new(vec![record("1", "xyz")]);
    assert_eq!(store.run(Operation::Provision, "example.com", "xyz"), Ok(()));
    assert!(store.creates.is_empty());
    assert!(store.deletes.is_empty());
    assert_eq!(store.settled, 0);
    assert_eq!(store.records, vec![record("1", "xyz")]);
}

#[test]
fn provision_twice_creates_once() {
    let mut store = Store::new(vec![]);
    assert_eq!(store.run(Operation::Provision, "a.example.com", "tok"), Ok(()));
    assert_eq!(store.run(Operation::Provision, "a.example.com", "tok"), Ok(()));
    assert_eq!(store.creates.len(), 1);
    assert_eq!(store.records.len(), 1);
}

#[test]
fn provision_with_stale_records_stops() {
    let mut store = Store::new(vec![record("3", "old"), record("4", "older")]);
    assert_eq!(
        store.run(Operation::Provision, "example.com", "new"),
        Err(ReconcileError::StaleRecords)
    );
    assert!(store.creates.is_empty());
    assert!(store.deletes.is_empty());
    assert_eq!(store.records.len(), 2);
}

#[test]
fn provision_list_failure_is_passed_on() {
    let (mut r, _) = Reconciler::new(Operation::Provision, "example.com", "p");
    assert_eq!(
        r.advance(Event::Listed(Err(error("auth")))),
        Action::Finish(Err(ReconcileError::Backend(error("auth"))))
    );
}

#[test]
fn provision_create_failure_is_passed_on() {
    let (mut r, _) = Reconciler::new(Operation::Provision, "example.com", "p");
    let _ = r.advance(Event::Listed(Ok(vec![])));
    assert_eq!(
        r.advance(Event::Created(Err(error("quota")))),
        Action::Finish(Err(ReconcileError::Backend(error("quota"))))
    );
}

#[test]
fn clean_deletes_only_matching_records() {
    let mut store = Store::new(vec![record("5", "p1"), record("6", "stale")]);
    assert_eq!(store.run(Operation::Clean, "foo.bar.example.com", "p1"), Ok(()));
    assert_eq!(store.deletes, vec![("example.com".to_string(), "5".to_string())]);
    assert_eq!(store.records, vec![record("6", "stale")]);
}

#[test]
fn clean_step_by_step() {
    let (mut r, action) = Reconciler::new(Operation::Clean, "foo.bar.example.com", "p1");
    assert_eq!(
        action,
        Action::ListRecords {
            zone: "example.com".to_string(),
            record_name: "_acme-challenge.foo.bar".to_string()
        }
    );
    let action = r.advance(Event::Listed(Ok(vec![record("5", "p1"), record("6", "stale")])));
    assert_eq!(
        action,
        Action::DeleteRecord { zone: "example.com".to_string(), record_id: "5".to_string() }
    );
    assert_eq!(r.advance(Event::Deleted(Ok(()))), Action::Finish(Ok(())));
}

#[test]
fn clean_with_nothing_listed_succeeds() {
    let mut store = Store::new(vec![]);
    assert_eq!(store.run(Operation::Clean, "example.com", "p"), Ok(()));
    assert!(store.deletes.is_empty());
}

#[test]
fn clean_without_match_changes_nothing() {
    let before = vec![record("1", "a"), record("2", "b")];
    let mut store = Store::new(before.clone());
    assert_eq!(store.run(Operation::Clean, "example.com", "c"), Ok(()));
    assert!(store.deletes.is_empty());
    assert!(store.creates.is_empty());
    assert_eq!(store.records, before);
}

#[test]
fn clean_removes_every_matching_record() {
    let mut store =
        Store::new(vec![record("1", "p"), record("2", "q"), record("3", "p"), record("4", "r")]);
    assert_eq!(store.run(Operation::Clean, "x.example.com", "p"), Ok(()));
    assert_eq!(
        store.deletes,
        vec![
            ("example.com".to_string(), "1".to_string()),
            ("example.com".to_string(), "3".to_string())
        ]
    );
    assert_eq!(store.records, vec![record("2", "q"), record("4", "r")]);
}

#[test]
fn clean_continues_after_failure_and_reports_all() {
    let (mut r, _) = Reconciler::new(Operation::Clean, "example.com", "p");
    let records = vec![record("1", "p"), record("2", "p"), record("3", "p")];
    assert_eq!(
        r.advance(Event::Listed(Ok(records))),
        Action::DeleteRecord { zone: "example.com".to_string(), record_id: "1".to_string() }
    );
    assert_eq!(
        r.advance(Event::Deleted(Err(error("busy")))),
        Action::DeleteRecord { zone: "example.com".to_string(), record_id: "2".to_string() }
    );
    assert_eq!(
        r.advance(Event::Deleted(Ok(()))),
        Action::DeleteRecord { zone: "example.com".to_string(), record_id: "3".to_string() }
    );
    assert_eq!(
        r.advance(Event::Deleted(Err(error("gone")))),
        Action::Finish(Err(ReconcileError::DeleteFailed(vec![
            DeleteFailure { record_id: "1".to_string(), error: error("busy") },
            DeleteFailure { record_id: "3".to_string(), error: error("gone") },
        ])))
    );
}

#[test]
fn clean_list_failure_is_passed_on() {
    let (mut r, _) = Reconciler::new(Operation::Clean, "example.com", "p");
    assert_eq!(
        r.advance(Event::Listed(Err(error("down")))),
        Action::Finish(Err(ReconcileError::Backend(error("down"))))
    );
}

#[test]
fn unexpected_events_end_the_run() {
    let (mut r, _) = Reconciler::new(Operation::Provision, "example.com", "p");
    assert_eq!(r.advance(Event::Settled), Action::Finish(Err(ReconcileError::UnexpectedEvent)));
    assert_eq!(
        r.advance(Event::Listed(Ok(vec![]))),
        Action::Finish(Err(ReconcileError::UnexpectedEvent))
    );
    let (mut c, _) = Reconciler::new(Operation::Clean, "example.com", "p");
    let _ = c.advance(Event::Listed(Ok(vec![record("1", "p")])));
    assert_eq!(
        c.advance(Event::Created(Ok(()))),
        Action::Finish(Err(ReconcileError::UnexpectedEvent))
    );
}
