use autogen_rust::task_ledger::TaskLedger;

#[test]
fn ledger_walks_the_list() {
    let mut ledger = TaskLedger::new(vec!["a".to_string(), "b".to_string()], None);
    assert_eq!(ledger.current_task(), Some("a".to_string()));
    assert!(ledger.record_solution("one".to_string()));
    assert!(ledger.task_done);
    assert_eq!(ledger.current_task(), Some("b".to_string()));
    assert!(ledger.record_solution("two".to_string()));
    assert_eq!(ledger.current_task(), None);
    assert!(!ledger.record_solution("three".to_string()));
    assert_eq!(ledger.solution_list, vec!["one".to_string(), "two".to_string()]);
}
