use vstd::prelude::*;

use crate::config::Config;
use crate::finalizer::{
    add_finalizer, detect_phase, finalizers_of, is_deleting, remove_finalizer,
    with_finalizer, without_finalizer, ManagedObject, ReconcilePhase,
};

verus! {

/// What the controller runtime does after a reconcile.
#[derive(Debug, PartialEq, Eq, Structural)]
pub enum Action {
    /// Reconcile again after this many seconds.
    Requeue(u64),
    /// Wait until the object changes.
    AwaitChange,
}

/// An error in the cluster API's shape, so that the runtime's error policy applies.
#[derive(Debug)]
pub struct ApiError {
    pub status: String,
    pub message: String,
    pub reason: String,
    pub code: u16,
}

/// What a script run returned: its exit code and what it wrote.
#[derive(Debug)]
pub struct CommandResult {
    pub exit_code: i32,
    pub stdout: String,
    pub stderr: String,
}

/// Runs a reconcile script with one command argument and the object on standard input.
/// An error means the script could not be run at all.
pub trait CommandExecutor {
    fn execute(&self, script: &str, command: &str, input: &str) -> Result<CommandResult, String>;
}

/// Seconds before a reconcile that added a finalizer runs again on the updated object.
pub const FINALIZER_REQUEUE_SECS: u64 = 5;

/// Seconds before a failed reconcile is retried.
pub const ERROR_REQUEUE_SECS: u64 = 300;

pub open spec fn is_api_error(e: ApiError, reason: Seq<char>, message: Seq<char>, code: u16) -> bool {
    &&& e.status@ == "Failure"@
    &&& e.reason@ == reason
    &&& e.message@ == message
    &&& e.code == code
}

/// An API error with the given reason, message and code.
pub fn to_kube_error(reason: &str, message: &str, code: u16) -> (r: ApiError)
    ensures
        is_api_error(r, reason@, message@, code),
{
    proof {
        reveal_strlit("Failure");
    }
    ApiError {
        status: "Failure".to_owned(),
        message: message.to_owned(),
        reason: reason.to_owned(),
        code,
    }
}

/// What a finished script run means: exit 0 is no change, 2 is a change, anything
/// else an error that carries the code and what the script wrote to stderr.
pub open spec fn script_outcome_spec(
    res: CommandResult,
    config: Config,
    r: Result<Action, ApiError>,
) -> bool {
    if res.exit_code == 0 {
        r == Ok::<Action, ApiError>(Action::Requeue(config.requeue_after_noop))
    } else if res.exit_code == 2 {
        r == Ok::<Action, ApiError>(Action::Requeue(config.requeue_after_change))
    } else {
        r is Err && is_api_error(
            r->Err_0,
            res.stderr@,
            "Script exited with error"@,
            res.exit_code as u16,
        )
    }
}

/// What a script invocation means, including one that could not run.
pub open spec fn run_outcome_spec(
    res: Result<CommandResult, String>,
    config: Config,
    r: Result<Action, ApiError>,
) -> bool {
    match res {
        Ok(c) => script_outcome_spec(c, config, r),
        Err(e) => r is Err && is_api_error(r->Err_0, e@, "Failed to spawn script"@, 500),
    }
}

/// Maps a script's exit code to the next action or an error.
pub fn script_outcome(result: &CommandResult, config: &Config) -> (r: Result<Action, ApiError>)
    ensures
        script_outcome_spec(*result, *config, r),
{
    if result.exit_code == 0 {
        Ok(Action::Requeue(config.requeue_after_noop))
    } else if result.exit_code == 2 {
        Ok(Action::Requeue(config.requeue_after_change))
    } else {
        let code: u16 = #[verifier::truncate] (result.exit_code as u16);
        proof {
            reveal_strlit("Script exited with error");
        }
        Err(to_kube_error(result.stderr.as_str(), "Script exited with error", code))
    }
}

/// Maps what the executor returned to the next action or an error.
pub fn run_outcome(result: Result<CommandResult, String>, config: &Config) -> (r: Result<
    Action,
    ApiError,
>)
    ensures
        run_outcome_spec(result, *config, r),
{
    match result {
        Ok(c) => script_outcome(&c, config),
        Err(e) => {
            proof {
                reveal_strlit("Failed to spawn script");
            }
            Err(to_kube_error(e.as_str(), "Failed to spawn script", 500))
        },
    }
}

/// Runs the script with `command` and maps its result to an action or an error.
pub fn run_delegate<E: CommandExecutor>(
    executor: &E,
    script: &str,
    command: &str,
    input: &str,
    config: &Config,
) -> (r: Result<Action, ApiError>)
    ensures
        exists|res: Result<CommandResult, String>| run_outcome_spec(res, *config, r),
{
    let res = executor.execute(script, command, input);
    let ghost g = res;
    let r = run_outcome(res, config);
    assert(run_outcome_spec(g, *config, r));
    r
}

/// Which finalizer change a write carries.
#[derive(Debug, PartialEq, Eq, Structural)]
pub enum FinalizerChange {
    Added,
    Removed,
}

/// What the reconciler asks of the cluster after deciding.
pub enum Step {
    /// Replace the object with this one, whose finalizers changed; then `then`.
    Replace { object: ManagedObject, change: FinalizerChange, then: Action },
    /// Nothing to write: the reconcile ends with this.
    Done(Result<Action, ApiError>),
}

/// `obj2` is `obj` with its finalizers set to `fs`.
pub open spec fn with_finalizers(obj2: ManagedObject, obj: ManagedObject, fs: Seq<Seq<char>>) -> bool {
    &&& finalizers_of(obj2) == fs
    &&& obj2.finalizers is Some
    &&& obj2.name == obj.name
    &&& obj2.namespace == obj.namespace
    &&& obj2.deletion_timestamp == obj.deletion_timestamp
}

/// The step that follows when the script, where one runs, returned `res`.
pub open spec fn step_spec(
    obj: ManagedObject,
    config: Config,
    res: Result<CommandResult, String>,
    r: Step,
) -> bool {
    let f = config.finalizer->0@;
    let present = config.finalizer is Some && finalizers_of(obj).contains(f);
    if config.finalizer is None || (present && !is_deleting(obj)) {
        r is Done && run_outcome_spec(res, config, r->Done_0)
    } else if !present {
        r matches Step::Replace { object, change, then } && change == FinalizerChange::Added && then
            == Action::Requeue(FINALIZER_REQUEUE_SECS) && with_finalizers(
            object,
            obj,
            with_finalizer(finalizers_of(obj), f),
        )
    } else {
        match res {
            Ok(c) => if c.exit_code == 0 || c.exit_code == 2 {
                r matches Step::Replace { object, change, then } && change
                    == FinalizerChange::Removed && then == Action::AwaitChange && with_finalizers(
                    object,
                    obj,
                    without_finalizer(finalizers_of(obj), f),
                )
            } else {
                r is Done && script_outcome_spec(c, config, r->Done_0)
            },
            Err(_) => r is Done && run_outcome_spec(res, config, r->Done_0),
        }
    }
}

fn finalizer_of(config: &Config) -> (r: Option<&str>)
    ensures
        r is Some <==> config.finalizer is Some,
        r is Some ==> r->0@ == config.finalizer->0@,
{
    match &config.finalizer {
        Some(f) => Some(f.as_str()),
        None => None,
    }
}

/// A copy of the object.
pub fn copy_object(obj: &ManagedObject) -> (r: ManagedObject)
    ensures
        r.name == obj.name,
        r.namespace == obj.namespace,
        r.deletion_timestamp == obj.deletion_timestamp,
        r.finalizers is Some <==> obj.finalizers is Some,
        finalizers_of(r) == finalizers_of(*obj),
{
    let finalizers = match &obj.finalizers {
        Some(v) => Some(v.clone()),
        None => None,
    };
    proof {
        if obj.finalizers is Some {
            assert(finalizers->0.deep_view() =~= obj.finalizers->0.deep_view());
        }
    }
    ManagedObject {
        name: obj.name.clone(),
        namespace: obj.namespace.clone(),
        finalizers,
        deletion_timestamp: obj.deletion_timestamp.clone(),
    }
}

/// Decides the reconcile of `obj` given what the script returned. `result` is only
/// read where the phase runs the script.
pub fn decide(obj: &ManagedObject, config: &Config, result: Result<CommandResult, String>) -> (r:
    Step)
    ensures
        step_spec(*obj, *config, result, r),
{
    let phase = detect_phase(obj, finalizer_of(config));
    match phase {
        ReconcilePhase::NeedsFinalizer => {
            let f = finalizer_of(config).unwrap();
            let mut object = copy_object(obj);
            add_finalizer(&mut object, f);
            Step::Replace {
                object,
                change: FinalizerChange::Added,
                then: Action::Requeue(FINALIZER_REQUEUE_SECS),
            }
        },
        ReconcilePhase::Finalizing => {
            let f = finalizer_of(config).unwrap();
            match run_outcome(result, config) {
                Ok(_) => {
                    let mut object = copy_object(obj);
                    remove_finalizer(&mut object, f);
                    Step::Replace { object, change: FinalizerChange::Removed, then: Action::AwaitChange }
                },
                Err(e) => Step::Done(Err(e)),
            }
        },
        _ => Step::Done(run_outcome(result, config)),
    }
}

/// The script command that the object's phase calls for, if any.
pub open spec fn command_spec(obj: ManagedObject, config: Config) -> Option<Seq<char>> {
    let f = config.finalizer->0@;
    let present = config.finalizer is Some && finalizers_of(obj).contains(f);
    if config.finalizer is None || (present && !is_deleting(obj)) {
        Some("reconcile"@)
    } else if !present {
        None
    } else {
        Some("finalize"@)
    }
}

/// The command to run the script with, or none where only a finalizer is to be added.
pub fn script_command(obj: &ManagedObject, config: &Config) -> (r: Option<&'static str>)
    ensures
        r is Some <==> command_spec(*obj, *config) is Some,
        r is Some ==> r->0@ == command_spec(*obj, *config)->0,
{
    proof {
        reveal_strlit("reconcile");
        reveal_strlit("finalize");
    }
    match detect_phase(obj, finalizer_of(config)) {
        ReconcilePhase::NeedsFinalizer => None,
        ReconcilePhase::Finalizing => Some("finalize"),
        _ => Some("reconcile"),
    }
}

/// One reconcile of `obj`: admits the finalizer, or runs the script with `reconcile`
/// or `finalize` and maps its exit code, removing the finalizer after a
/// successful `finalize`. `input` is the object as the script reads it.
pub fn reconcile<E: CommandExecutor>(
    obj: &ManagedObject,
    config: &Config,
    script: &str,
    input: &str,
    executor: &E,
) -> (r: Step)
    ensures
        command_spec(*obj, *config) is None ==> forall|res: Result<CommandResult, String>|
            step_spec(*obj, *config, res, r),
        exists|res: Result<CommandResult, String>| step_spec(*obj, *config, res, r),
{
    match script_command(obj, config) {
        None => {
            let r = decide(obj, config, Err(String::new()));
            r
        },
        Some(command) => {
            let res = executor.execute(script, command, input);
            let ghost g = res;
            let r = decide(obj, config, res);
            assert(step_spec(*obj, *config, g, r));
            r
        },
    }
}

/// The end of a reconcile that wrote the object back: `then` where the write
/// succeeded, else an error with the cluster's message.
pub fn finish_write(change: FinalizerChange, then: Action, written: Result<(), String>) -> (r:
    Result<Action, ApiError>)
    ensures
        written is Ok ==> r == Ok::<Action, ApiError>(then),
        written is Err ==> r is Err && is_api_error(
            r->Err_0,
            written->Err_0@,
            if change == FinalizerChange::Added {
                "Failed to add finalizer"@
            } else {
                "Failed to remove finalizer"@
            },
            500,
        ),
{
    match written {
        Ok(()) => Ok(then),
        Err(e) => {
            proof {
                reveal_strlit("Failed to add finalizer");
                reveal_strlit("Failed to remove finalizer");
            }
            let message = match change {
                FinalizerChange::Added => "Failed to add finalizer",
                FinalizerChange::Removed => "Failed to remove finalizer",
            };
            Err(to_kube_error(e.as_str(), message, 500))
        },
    }
}

/// After any reconcile error the object is retried after a fixed delay.
pub fn error_policy(err: &ApiError) -> (r: Action)
    ensures
        r == Action::Requeue(ERROR_REQUEUE_SECS),
{
    Action::Requeue(ERROR_REQUEUE_SECS)
}

/// Exit 0 requeues after the no-change delay, exit 2 after the change delay, and
/// any other exit is an error that carries that code.
pub proof fn lemma_exit_code_mapping(res: CommandResult, config: Config, r: Result<Action, ApiError>)
    requires
        script_outcome_spec(res, config, r),
    ensures
        res.exit_code == 0 ==> r == Ok::<Action, ApiError>(Action::Requeue(config.requeue_after_noop)),
        res.exit_code == 2 ==> r == Ok::<Action, ApiError>(Action::Requeue(config.requeue_after_change)),
        res.exit_code != 0 && res.exit_code != 2 ==> r is Err && r->Err_0.code == res.exit_code as u16,
{
}

} // verus!
