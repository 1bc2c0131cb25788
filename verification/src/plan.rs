use vstd::prelude::*;

use crate::action::Action;
use crate::action::action_literal;
use crate::errors::OxideError;

verus! {

/// A planned external process call: the program to launch, its arguments,
/// and the messages to report when launching fails or the process fails.
pub struct ProcessPlan {
    pub program: String,
    pub args: Vec<String>,
    pub launch_failure_msg: String,
    pub exit_failure_msg: String,
}

/// How a launched process ended: the launch itself failed, or the process
/// exited, successfully or not.
#[derive(Clone, Copy, Debug, PartialEq, Eq, Structural)]
pub enum ProcessOutcome {
    LaunchFailed,
    Exited(bool),
}

/// The program that carries out an action.
pub open spec fn spec_program(action: Action) -> Seq<char> {
    match action {
        Action::Run | Action::Build => "cargo"@,
        Action::Deploy => "flyctl"@,
        Action::Setup => "./setup.sh"@,
    }
}

/// The arguments handed to the program, given the package identifier.
/// Deploy and setup take no package; the identifier is ignored there.
pub open spec fn spec_args(action: Action, package: Seq<char>) -> Seq<Seq<char>> {
    match action {
        Action::Run | Action::Build => seq![action_literal(action), "-p"@, package],
        Action::Deploy => seq!["deploy"@],
        Action::Setup => Seq::empty(),
    }
}

/// The message reported when the program cannot be launched.
pub open spec fn spec_launch_failure(action: Action) -> Seq<char> {
    match action {
        Action::Run | Action::Build => "Failed to execute cargo "@ + action_literal(action)
            + " command"@,
        Action::Deploy => "Failed to execute fly deploy command"@,
        Action::Setup => "Failed to execute setup. Ensure that you are at the root of the project"@,
    }
}

/// The message reported when the program exits with a failure status.
pub open spec fn spec_exit_failure(action: Action, package: Seq<char>) -> Seq<char> {
    match action {
        Action::Run | Action::Build => "Cargo "@ + action_literal(action) + " for "@ + package
            + " failed"@,
        Action::Deploy => "Fly deploy failed"@,
        Action::Setup => "Setup failed"@,
    }
}

/// The plan is exactly the one that carries out this action on this package.
pub open spec fn plan_is_for(plan: ProcessPlan, action: Action, package: Seq<char>) -> bool {
    &&& plan.program@ == spec_program(action)
    &&& plan.args.deep_view() == spec_args(action, package)
    &&& plan.launch_failure_msg@ == spec_launch_failure(action)
    &&& plan.exit_failure_msg@ == spec_exit_failure(action, package)
}

/// Plans the package-manager call that runs or builds a package.
pub fn run_or_build(action: &Action, package: &str) -> (plan: ProcessPlan)
    requires
        *action is Run || *action is Build,
    ensures
        plan_is_for(plan, *action, package@),
{
    let action_str = action.literal();
    let mut args: Vec<String> = Vec::new();
    args.push(String::from_str(action_str));
    args.push(String::from_str("-p"));
    args.push(String::from_str(package));
    proof {
        assert(args.deep_view() =~= spec_args(*action, package@));
    }
    ProcessPlan {
        program: String::from_str("cargo"),
        args,
        launch_failure_msg: String::from_str("Failed to execute cargo ").concat(action_str).concat(
            " command",
        ),
        exit_failure_msg: String::from_str("Cargo ").concat(action_str).concat(" for ").concat(
            package,
        ).concat(" failed"),
    }
}

/// Plans the deployment-tool call. The plan does not depend on a package.
pub fn fly_deploy() -> (plan: ProcessPlan)
    ensures
        forall|package: Seq<char>| #[trigger] plan_is_for(plan, Action::Deploy, package),
{
    let mut args: Vec<String> = Vec::new();
    args.push(String::from_str("deploy"));
    proof {
        assert forall|package: Seq<char>|
            args.deep_view() =~= #[trigger] spec_args(Action::Deploy, package) by {}
    }
    ProcessPlan {
        program: String::from_str("flyctl"),
        args,
        launch_failure_msg: String::from_str("Failed to execute fly deploy command"),
        exit_failure_msg: String::from_str("Fly deploy failed"),
    }
}

/// Plans the local setup-script call. The plan does not depend on a package.
pub fn setup() -> (plan: ProcessPlan)
    ensures
        forall|package: Seq<char>| #[trigger] plan_is_for(plan, Action::Setup, package),
{
    let args: Vec<String> = Vec::new();
    proof {
        assert forall|package: Seq<char>|
            args.deep_view() =~= #[trigger] spec_args(Action::Setup, package) by {}
    }
    ProcessPlan {
        program: String::from_str("./setup.sh"),
        args,
        launch_failure_msg: String::from_str(
            "Failed to execute setup. Ensure that you are at the root of the project",
        ),
        exit_failure_msg: String::from_str("Setup failed"),
    }
}

impl ProcessPlan {
    /// Turns the outcome of the planned call into the dispatcher's result:
    /// success exactly when the process exited with a success status, and
    /// otherwise the failure message this plan carries for the outcome.
    pub fn interpret(&self, outcome: ProcessOutcome) -> (r: Result<(), OxideError>)
        ensures
            r is Ok <==> outcome == ProcessOutcome::Exited(true),
            outcome == ProcessOutcome::LaunchFailed ==> (r matches Err(e) && e matches
                OxideError::ExecutionFailure(m) && m@ == self.launch_failure_msg@),
            outcome == ProcessOutcome::Exited(false) ==> (r matches Err(e) && e matches
                OxideError::CommandFailure(m) && m@ == self.exit_failure_msg@),
    {
        match outcome {
            ProcessOutcome::Exited(true) => Ok(()),
            ProcessOutcome::Exited(false) => Err(
                OxideError::CommandFailure(self.exit_failure_msg.clone()),
            ),
            ProcessOutcome::LaunchFailed => Err(
                OxideError::ExecutionFailure(self.launch_failure_msg.clone()),
            ),
        }
    }
}

} // verus!
