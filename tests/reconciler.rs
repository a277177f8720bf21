use nuop::config::{default_requeue_after_change, default_requeue_after_noop, Config};
use nuop::finalizer::{
    add_finalizer, contains_text, detect_phase, remove_finalizer, ManagedObject, ReconcilePhase,
};
use nuop::reconcile::{
    error_policy, finish_write, reconcile, run_delegate, script_command, script_outcome,
    to_kube_error, Action, CommandExecutor, CommandResult, FinalizerChange, Step,
};
use nuop::text_map::TextMap;
use std::cell::RefCell;

const FINALIZER: &str = "test.example.com/finalizer";

/// An executor that answers with a fixed exit code and records its calls.
struct FakeExecutor {
    exit_code: Option<i32>,
    stderr: String,
    calls: RefCell<Vec<(String, String, String)>>,
}

impl FakeExecutor {
    fn exiting(code: i32) -> Self {
        FakeExecutor { exit_code: Some(code), stderr: String::new(), calls: RefCell::new(vec![]) }
    }

    fn failing() -> Self {
        FakeExecutor { exit_code: None, stderr: String::new(), calls: RefCell::new(vec![]) }
    }
}

impl CommandExecutor for FakeExecutor {
    fn execute(&self, script: &str, command: &str, input: &str) -> Result<CommandResult, String> {
        self.calls
            .borrow_mut()
            .push((script.to_string(), command.to_string(), input.to_string()));
        match self.exit_code {
            Some(code) => Ok(CommandResult {
                exit_code: code,
                stdout: String::new(),
                stderr: self.stderr.clone(),
            }),
            None => Err("No such file or directory".to_string()),
        }
    }
}

fn create_test_config() -> Config {
    Config {
        name: "test-controller".to_string(),
        group: "apps".to_string(),
        version: "v1".to_string(),
        kind: "Deployment".to_string(),
        label_selectors: TextMap::new(),
        field_selectors: TextMap::new(),
        finalizer: Some(FINALIZER.to_string()),
        namespace: Some("default".to_string()),
        requeue_after_change: 10,
        requeue_after_noop: 300,
    }
}

fn create_test_object(name: &str, namespace: &str, has_finalizer: bool, deleting: bool) -> ManagedObject {
    ManagedObject {
        name: name.to_string(),
        namespace: Some(namespace.to_string()),
        finalizers: if has_finalizer { Some(vec![FINALIZER.to_string()]) } else { None },
        deletion_timestamp: if deleting { Some("2024-01-01T00:00:00Z".to_string()) } else { None },
    }
}

fn done(step: Step) -> Result<Action, nuop::reconcile::ApiError> {
    match step {
        Step::Done(r) => r,
        Step::Replace { .. } => panic!("expected no write"),
    }
}

#[test]
fn test_detect_phase_combinations() {
    let obj_no_finalizer = create_test_object("test", "default", false, false);
    let obj_with_finalizer = create_test_object("test", "default", true, false);
    let obj_deleting_with_finalizer = create_test_object("test", "default", true, true);
    let obj_deleting_no_finalizer = create_test_object("test", "default", false, true);

    assert_eq!(detect_phase(&obj_no_finalizer, None), ReconcilePhase::Noop("reconcile"));
    assert_eq!(detect_phase(&obj_with_finalizer, None), ReconcilePhase::Noop("reconcile"));

    let finalizer = Some(FINALIZER);
    assert_eq!(detect_phase(&obj_no_finalizer, finalizer), ReconcilePhase::NeedsFinalizer);
    assert_eq!(detect_phase(&obj_with_finalizer, finalizer), ReconcilePhase::Active);
    assert_eq!(detect_phase(&obj_deleting_with_finalizer, finalizer), ReconcilePhase::Finalizing);
    assert_eq!(detect_phase(&obj_deleting_no_finalizer, finalizer), ReconcilePhase::NeedsFinalizer);
}

#[test]
fn detect_phase_is_the_same_for_equal_inputs() {
    let a = create_test_object("a", "one", true, false);
    let b = create_test_object("b", "two", true, false);
    assert_eq!(detect_phase(&a, Some(FINALIZER)), detect_phase(&b, Some(FINALIZER)));
    assert_eq!(detect_phase(&a, Some(FINALIZER)), detect_phase(&a, Some(FINALIZER)));
}

#[test]
fn detect_phase_ignores_other_finalizers() {
    let mut obj = create_test_object("test", "default", false, true);
    obj.finalizers = Some(vec!["other/finalizer".to_string()]);
    assert_eq!(detect_phase(&obj, Some(FINALIZER)), ReconcilePhase::NeedsFinalizer);
}

#[test]
fn add_finalizer_twice_appends_once() {
    let mut obj = create_test_object("test", "default", false, false);
    obj.finalizers = Some(vec!["other/finalizer".to_string()]);
    assert!(add_finalizer(&mut obj, FINALIZER));
    assert!(!add_finalizer(&mut obj, FINALIZER));
    let fs = obj.finalizers.unwrap();
    assert_eq!(fs, vec!["other/finalizer".to_string(), FINALIZER.to_string()]);
    assert_eq!(fs.iter().filter(|f| f.as_str() == FINALIZER).count(), 1);
}

#[test]
fn add_finalizer_creates_the_list() {
    let mut obj = create_test_object("test", "default", false, false);
    assert!(add_finalizer(&mut obj, FINALIZER));
    assert_eq!(obj.finalizers, Some(vec![FINALIZER.to_string()]));
}

#[test]
fn remove_finalizer_filters_every_occurrence() {
    let mut obj = create_test_object("test", "default", false, true);
    obj.finalizers = Some(vec![
        FINALIZER.to_string(),
        "keep/me".to_string(),
        FINALIZER.to_string(),
    ]);
    remove_finalizer(&mut obj, FINALIZER);
    assert_eq!(obj.finalizers, Some(vec!["keep/me".to_string()]));

    let mut none = create_test_object("test", "default", false, true);
    remove_finalizer(&mut none, FINALIZER);
    assert_eq!(none.finalizers, Some(vec![]));
}

#[test]
fn contains_text_finds_exact_matches() {
    let v = vec!["a".to_string(), "bc".to_string()];
    assert!(contains_text(&v, "bc"));
    assert!(!contains_text(&v, "b"));
    assert!(!contains_text(&vec![], "a"));
}

#[test]
fn test_reconcile_needs_finalizer() {
    let config = create_test_config();
    let obj = create_test_object("test-deployment", "default", false, false);
    let executor = FakeExecutor::exiting(0);
    let step = reconcile(&obj, &config, "success-no-changes", "", &executor);
    match step {
        Step::Replace { object, change, then } => {
            assert_eq!(object.finalizers, Some(vec![FINALIZER.to_string()]));
            assert_eq!(object.name, "test-deployment");
            assert_eq!(change, FinalizerChange::Added);
            assert_eq!(then, Action::Requeue(5));
            assert_eq!(finish_write(change, then, Ok(())).unwrap(), Action::Requeue(5));
        }
        Step::Done(_) => panic!("expected a write"),
    }
    assert!(executor.calls.borrow().is_empty());
}

#[test]
fn test_reconcile_active_no_changes() {
    let config = create_test_config();
    let obj = create_test_object("test-deployment", "default", true, false);
    let executor = FakeExecutor::exiting(0);
    let result = done(reconcile(&obj, &config, "success-no-changes", "doc", &executor));
    assert_eq!(result.unwrap(), Action::Requeue(300));
    let calls = executor.calls.borrow();
    assert_eq!(calls.len(), 1);
    assert_eq!(calls[0], ("success-no-changes".to_string(), "reconcile".to_string(), "doc".to_string()));
}

#[test]
fn test_reconcile_active_with_changes() {
    let config = create_test_config();
    let obj = create_test_object("test-deployment", "default", true, false);
    let executor = FakeExecutor::exiting(2);
    let result = done(reconcile(&obj, &config, "success-with-changes", "", &executor));
    assert_eq!(result.unwrap(), Action::Requeue(10));
}

#[test]
fn test_reconcile_finalizing() {
    let config = create_test_config();
    let obj = create_test_object("test-deployment", "default", true, true);
    let executor = FakeExecutor::exiting(0);
    match reconcile(&obj, &config, "success-no-changes", "", &executor) {
        Step::Replace { object, change, then } => {
            assert_eq!(object.finalizers, Some(vec![]));
            assert_eq!(change, FinalizerChange::Removed);
            assert_eq!(then, Action::AwaitChange);
            assert_eq!(finish_write(change, then, Ok(())).unwrap(), Action::AwaitChange);
        }
        Step::Done(_) => panic!("expected a write"),
    }
    assert_eq!(executor.calls.borrow()[0].1, "finalize");
}

#[test]
fn test_reconcile_script_error() {
    let config = create_test_config();
    let obj = create_test_object("test-deployment", "default", true, false);
    let mut executor = FakeExecutor::exiting(1);
    executor.stderr = "boom".to_string();
    let err = done(reconcile(&obj, &config, "error", "", &executor)).unwrap_err();
    assert_eq!(err.message, "Script exited with error");
    assert_eq!(err.code, 1);
    assert_eq!(err.reason, "boom");
    assert_eq!(err.status, "Failure");
}

#[test]
fn test_reconcile_no_finalizer_config() {
    let mut config = create_test_config();
    config.finalizer = None;
    let obj = create_test_object("test-deployment", "default", false, false);
    let executor = FakeExecutor::exiting(0);
    let result = done(reconcile(&obj, &config, "no-finalizer", "", &executor));
    assert_eq!(result.unwrap(), Action::Requeue(300));
    assert_eq!(executor.calls.borrow()[0].1, "reconcile");
}

#[test]
fn test_error_policy() {
    let err = to_kube_error("TestReason", "Test error", 500);
    assert_eq!(error_policy(&err), Action::Requeue(300));
}

#[test]
fn spawn_failure_is_an_api_error() {
    let config = create_test_config();
    let obj = create_test_object("test-deployment", "default", true, false);
    let executor = FakeExecutor::failing();
    let err = done(reconcile(&obj, &config, "/nonexistent/script", "", &executor)).unwrap_err();
    assert_eq!(err.code, 500);
    assert_eq!(err.message, "Failed to spawn script");
    assert_eq!(err.reason, "No such file or directory");
}

#[test]
fn test_api_failure_scenarios() {
    let err = finish_write(FinalizerChange::Added, Action::Requeue(5), Err("Conflict".to_string()))
        .unwrap_err();
    assert_eq!(err.code, 500);
    assert_eq!(err.message, "Failed to add finalizer");
    assert_eq!(err.reason, "Conflict");

    let err = finish_write(FinalizerChange::Removed, Action::AwaitChange, Err("Internal".to_string()))
        .unwrap_err();
    assert_eq!(err.code, 500);
    assert_eq!(err.message, "Failed to remove finalizer");
}

#[test]
fn test_script_execution_edge_cases() {
    let config = create_test_config();
    let obj = create_test_object("test-deployment", "default", true, false);
    let err = done(reconcile(&obj, &config, "unexpected-exit-code", "", &FakeExecutor::exiting(42)))
        .unwrap_err();
    assert_eq!(err.code, 42);
    assert_eq!(err.message, "Script exited with error");

    let deleting = create_test_object("test-deployment", "default", true, true);
    let err = done(reconcile(&deleting, &config, "error", "", &FakeExecutor::exiting(1))).unwrap_err();
    assert_eq!(err.code, 1);
    assert_eq!(err.message, "Script exited with error");
}

#[test]
fn test_configuration_variations() {
    let mut config = create_test_config();
    config.namespace = None;
    config.finalizer = None;
    let obj = create_test_object("test-deployment", "kube-system", false, false);
    let result = done(reconcile(&obj, &config, "success-with-changes", "", &FakeExecutor::exiting(2)));
    assert_eq!(result.unwrap(), Action::Requeue(10));

    let mut config = create_test_config();
    config.requeue_after_change = 60;
    config.requeue_after_noop = 600;
    config.finalizer = None;
    let obj = create_test_object("test-deployment", "default", false, false);
    let result = done(reconcile(&obj, &config, "custom-requeue", "", &FakeExecutor::exiting(0)));
    assert_eq!(result.unwrap(), Action::Requeue(600));
}

#[test]
fn exit_codes_map_to_actions() {
    let config = create_test_config();
    let result = |code: i32| CommandResult { exit_code: code, stdout: String::new(), stderr: String::new() };
    assert_eq!(script_outcome(&result(0), &config).unwrap(), Action::Requeue(300));
    assert_eq!(script_outcome(&result(2), &config).unwrap(), Action::Requeue(10));
    assert_eq!(script_outcome(&result(3), &config).unwrap_err().code, 3);
    assert_eq!(script_outcome(&result(1), &config).unwrap_err().code, 1);
}

#[test]
fn run_delegate_passes_command_and_input() {
    let config = create_test_config();
    let executor = FakeExecutor::exiting(2);
    let result = run_delegate(&executor, "script", "reconcile", "input", &config);
    assert_eq!(result.unwrap(), Action::Requeue(10));
    assert_eq!(
        executor.calls.borrow()[0],
        ("script".to_string(), "reconcile".to_string(), "input".to_string())
    );
}

#[test]
fn script_command_follows_the_phase() {
    let config = create_test_config();
    assert_eq!(script_command(&create_test_object("t", "d", false, false), &config), None);
    assert_eq!(script_command(&create_test_object("t", "d", true, false), &config), Some("reconcile"));
    assert_eq!(script_command(&create_test_object("t", "d", true, true), &config), Some("finalize"));
}

#[test]
fn default_requeue_delays() {
    assert_eq!(default_requeue_after_change(), 10);
    assert_eq!(default_requeue_after_noop(), 300);
}
