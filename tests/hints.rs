use hint_processor::processor::run_handler;
use hint_processor::text::{contains_text, same_text};
use hint_processor::{
    expect_revert, mock_call, setup_hint_processor, skip, ExecutionContext, FailureOutcome,
    HintError, HintHandler, HintMetadata, HintProcessor, KeyedTable, RevertExpectation,
};

fn context() -> ExecutionContext {
    ExecutionContext::new(2, 0, 10, vec![7, 8], vec![1, 2, 3, 4], 3)
}

#[test]
fn setup_registers_the_three_builtins() {
    let p = setup_hint_processor();
    assert_eq!(p.len(), 3);
    assert_eq!(p.lookup("skip"), Some(HintHandler::Skip));
    assert_eq!(p.lookup("mock_call"), Some(HintHandler::MockCall));
    assert_eq!(p.lookup("expect_revert"), Some(HintHandler::ExpectRevert));
    assert_eq!(p.lookup("print"), None);
}

#[test]
fn unknown_hint_fails_and_leaves_context_alone() {
    let p = setup_hint_processor();
    let mut c = context();
    let r = p.dispatch("not_a_hint", &mut c, &HintMetadata::skip_to(5));
    assert_eq!(r, Err(HintError::UnknownHint));
    assert_eq!(c.pc, 2);
    assert_eq!(c.memory, vec![1, 2, 3, 4]);
    assert_eq!(c.registers, vec![7, 8]);
    assert_eq!(c.stack_depth, 3);
    assert!(HintError::UnknownHint.is_fatal());
}

#[test]
fn only_skip_registered_rejects_mock_call() {
    let mut p = HintProcessor::new_registry();
    p.register(String::from("skip"), HintHandler::Skip);
    let mut c = context();
    let m = HintMetadata::mock(String::from("foo"), vec![1, 2, 3], 3);
    assert_eq!(p.dispatch("mock_call", &mut c, &m), Err(HintError::UnknownHint));
    assert!(!c.is_mocked("foo"));
}

#[test]
fn skip_moves_only_the_pointer_to_the_boundary() {
    let p = setup_hint_processor();
    let mut c = context();
    assert_eq!(p.dispatch("skip", &mut c, &HintMetadata::skip_to(9)), Ok(()));
    assert_eq!(c.pc, 9);
    assert_eq!(c.memory, vec![1, 2, 3, 4]);
    assert_eq!(c.registers, vec![7, 8]);
    assert_eq!(c.stack_depth, 3);
    assert_eq!(skip(&mut c, &HintMetadata::skip_to(0)), Ok(()));
    assert_eq!(c.pc, 0);
}

#[test]
fn skip_outside_frame_is_invalid() {
    let mut c = context();
    assert_eq!(skip(&mut c, &HintMetadata::skip_to(10)), Err(HintError::InvalidSkipTarget));
    assert_eq!(c.pc, 2);
    let mut d = ExecutionContext::new(5, 4, 8, vec![], vec![], 1);
    assert_eq!(skip(&mut d, &HintMetadata::skip_to(3)), Err(HintError::InvalidSkipTarget));
    assert_eq!(d.pc, 5);
    assert!(!HintError::InvalidSkipTarget.is_fatal());
}

#[test]
fn mocked_target_returns_payload_on_every_call() {
    let p = setup_hint_processor();
    let mut c = context();
    let m = HintMetadata::mock(String::from("foo"), vec![1, 2, 3], 3);
    assert_eq!(p.dispatch("mock_call", &mut c, &m), Ok(()));
    assert!(c.intercept_call("foo"));
    assert_eq!(c.call_result, vec![1, 2, 3]);
    c.call_result = vec![];
    assert!(c.intercept_call("foo"));
    assert_eq!(c.call_result, vec![1, 2, 3]);
    assert_eq!(c.pc, 2);
    assert_eq!(c.stack_depth, 3);
}

#[test]
fn unmocked_targets_are_unaffected() {
    let mut c = context();
    let m = HintMetadata::mock(String::from("foo"), vec![1, 2, 3], 3);
    assert_eq!(mock_call(&mut c, &m), Ok(()));
    assert!(!c.intercept_call("bar"));
    assert!(!c.intercept_call("fo"));
    assert_eq!(c.call_result, Vec::<u64>::new());
}

#[test]
fn second_mock_of_a_target_wins() {
    let mut c = context();
    let first = HintMetadata::mock(String::from("foo"), vec![1, 2, 3], 3);
    let second = HintMetadata::mock(String::from("foo"), vec![9], 1);
    assert_eq!(mock_call(&mut c, &first), Ok(()));
    assert_eq!(mock_call(&mut c, &second), Ok(()));
    assert!(c.intercept_call("foo"));
    assert_eq!(c.call_result, vec![9]);
}

#[test]
fn mocks_for_different_targets_coexist() {
    let mut c = context();
    assert_eq!(mock_call(&mut c, &HintMetadata::mock(String::from("a"), vec![1], 1)), Ok(()));
    assert_eq!(mock_call(&mut c, &HintMetadata::mock(String::from("b"), vec![2, 2], 2)), Ok(()));
    assert!(c.intercept_call("a"));
    assert_eq!(c.call_result, vec![1]);
    assert!(c.intercept_call("b"));
    assert_eq!(c.call_result, vec![2, 2]);
}

#[test]
fn malformed_mock_payload_is_rejected() {
    let mut c = context();
    let m = HintMetadata::mock(String::from("foo"), vec![1, 2, 3], 2);
    assert_eq!(mock_call(&mut c, &m), Err(HintError::MalformedMockPayload));
    assert!(!c.is_mocked("foo"));
    let empty = HintMetadata::mock(String::from("bar"), vec![], 0);
    assert_eq!(mock_call(&mut c, &empty), Ok(()));
    assert!(c.intercept_call("bar"));
    assert_eq!(c.call_result, Vec::<u64>::new());
}

#[test]
fn expect_revert_passes_on_matching_failure() {
    let p = setup_hint_processor();
    let mut c = context();
    let entry = HintMetadata::revert_entry(Some(String::from("overflow")));
    assert_eq!(p.dispatch("expect_revert", &mut c, &entry), Ok(()));
    assert!(c.is_armed());
    assert_eq!(c.handle_failure("arithmetic overflow"), Ok(FailureOutcome::Caught));
    assert!(!c.is_armed());
    assert_eq!(p.dispatch("expect_revert", &mut c, &HintMetadata::revert_exit()), Ok(()));
}

#[test]
fn expect_revert_fails_when_region_completes() {
    let p = setup_hint_processor();
    let mut c = context();
    let entry = HintMetadata::revert_entry(Some(String::from("overflow")));
    assert_eq!(p.dispatch("expect_revert", &mut c, &entry), Ok(()));
    let r = p.dispatch("expect_revert", &mut c, &HintMetadata::revert_exit());
    assert_eq!(r, Err(HintError::ExpectedRevertNotRaised));
    assert!(!c.is_armed());
    assert!(!HintError::ExpectedRevertNotRaised.is_fatal());
}

#[test]
fn expect_revert_mismatched_message() {
    let mut c = context();
    let entry = HintMetadata::revert_entry(Some(String::from("overflow")));
    assert_eq!(expect_revert(&mut c, &entry), Ok(()));
    assert_eq!(c.handle_failure("division by zero"), Err(HintError::RevertPatternMismatch));
    assert!(!c.is_armed());
}

#[test]
fn expect_revert_without_pattern_catches_any_failure() {
    let mut c = context();
    assert_eq!(expect_revert(&mut c, &HintMetadata::revert_entry(None)), Ok(()));
    assert_eq!(c.handle_failure("anything"), Ok(FailureOutcome::Caught));
}

#[test]
fn failure_outside_region_propagates() {
    let mut c = context();
    assert_eq!(c.handle_failure("boom"), Ok(FailureOutcome::Propagate));
    assert!(matches!(c.revert, RevertExpectation::Unarmed));
    assert_eq!(expect_revert(&mut c, &HintMetadata::revert_exit()), Ok(()));
}

#[test]
fn register_overrides_and_register_unique_refuses() {
    let mut p = HintProcessor::new_registry();
    p.register(String::from("h"), HintHandler::Skip);
    p.register(String::from("h"), HintHandler::UserDefined(4));
    assert_eq!(p.len(), 1);
    assert_eq!(p.lookup("h"), Some(HintHandler::UserDefined(4)));
    assert_eq!(
        p.register_unique(String::from("h"), HintHandler::MockCall),
        Err(HintError::DuplicateHint)
    );
    assert_eq!(p.lookup("h"), Some(HintHandler::UserDefined(4)));
    assert_eq!(p.register_unique(String::from("g"), HintHandler::MockCall), Ok(()));
    assert!(p.is_registered("g"));
    assert_eq!(p.len(), 2);
    assert!(HintError::DuplicateHint.is_fatal());
}

#[test]
fn user_defined_handler_records_its_code() {
    let mut p = HintProcessor::new_registry();
    p.register(String::from("note"), HintHandler::UserDefined(42));
    let mut c = context();
    assert_eq!(p.dispatch("note", &mut c, &HintMetadata::skip_to(0)), Ok(()));
    assert_eq!(run_handler(HintHandler::UserDefined(7), &mut c, &HintMetadata::revert_exit()), Ok(()));
    assert_eq!(c.user_log, vec![42, 7]);
    assert_eq!(c.pc, 2);
}

#[test]
fn text_helpers() {
    assert!(contains_text("arithmetic overflow", "overflow"));
    assert!(contains_text("overflow", "overflow"));
    assert!(contains_text("abc", ""));
    assert!(!contains_text("over", "overflow"));
    assert!(!contains_text("arithmetic overflaw", "overflow"));
    assert!(same_text("skip", "skip"));
    assert!(!same_text("skip", "skip2"));
    assert!(!same_text("skip", "slip"));
}

#[test]
fn keyed_table_keeps_first_insertion_order() {
    let mut t: KeyedTable<u64> = KeyedTable::new();
    t.insert(String::from("b"), 1);
    t.insert(String::from("a"), 2);
    t.insert(String::from("b"), 3);
    assert_eq!(t.len(), 2);
    assert_eq!(t.get("b"), Some(&3));
    assert_eq!(t.get("a"), Some(&2));
    assert_eq!(t.get("c"), None);
    assert!(t.contains("a"));
}
