use oxide::action::Action;
use oxide::command::Command;
use oxide::errors::OxideError;
use oxide::plan::ProcessOutcome;

fn args(words: &[&str]) -> Vec<String> {
    words.iter().map(|w| w.to_string()).collect()
}

#[test]
fn parse_rejects_empty_argument_vector() {
    let r = Command::from_args(&args(&[]));
    assert!(matches!(r, Err(OxideError::InvalidArgs)));
}

#[test]
fn parse_rejects_program_name_alone() {
    let r = Command::from_args(&args(&["oxide"]));
    assert!(matches!(r, Err(OxideError::InvalidArgs)));
}

#[test]
fn parse_rejects_unknown_action() {
    let r = Command::from_args(&args(&["oxide", "frobnicate", "foo"]));
    assert!(matches!(r, Err(OxideError::InvalidArgs)));
}

#[test]
fn parse_is_case_sensitive() {
    let r = Command::from_args(&args(&["oxide", "Run", "foo"]));
    assert!(matches!(r, Err(OxideError::InvalidArgs)));
}

#[test]
fn parse_run_with_package() {
    let c = Command::from_args(&args(&["oxide", "run", "foo"])).unwrap();
    assert_eq!(c.action, Action::Run);
    assert_eq!(c.args, vec!["foo".to_string()]);
}

#[test]
fn parse_build_without_package_then_validate_fails() {
    let c = Command::from_args(&args(&["oxide", "build"])).unwrap();
    assert_eq!(c.action, Action::Build);
    assert!(c.args.is_empty());
    let v = c.validate();
    assert!(matches!(v, Err(OxideError::MissingPackageName(Action::Build))));
}

#[test]
fn parse_deploy_keeps_residual_and_validates() {
    let c = Command::from_args(&args(&["oxide", "deploy", "ignored"])).unwrap();
    assert_eq!(c.action, Action::Deploy);
    assert_eq!(c.args, vec!["ignored".to_string()]);
    assert!(c.validate().is_ok());
}

#[test]
fn validate_accepts_run_with_package() {
    let c = Command::from_args(&args(&["oxide", "run", "demo"])).unwrap();
    assert!(c.validate().is_ok());
}

#[test]
fn validate_accepts_setup_without_arguments() {
    let c = Command::from_args(&args(&["oxide", "setup"])).unwrap();
    assert_eq!(c.action, Action::Setup);
    assert!(c.validate().is_ok());
}

#[test]
fn parse_twice_yields_equal_commands() {
    let raw = args(&["oxide", "run", "demo", "extra"]);
    let first = Command::from_args(&raw).unwrap();
    let second = Command::from_args(&raw).unwrap();
    assert_eq!(first.action, second.action);
    assert_eq!(first.args, second.args);
}

#[test]
fn execute_plans_cargo_run() {
    let c = Command::from_args(&args(&["oxide", "run", "demo"])).unwrap();
    let plan = c.execute().unwrap();
    assert_eq!(plan.program, "cargo".to_string());
    assert_eq!(plan.args, vec!["run".to_string(), "-p".to_string(), "demo".to_string()]);
    assert_eq!(plan.launch_failure_msg, "Failed to execute cargo run command".to_string());
    assert_eq!(plan.exit_failure_msg, "Cargo run for demo failed".to_string());
}

#[test]
fn execute_plans_cargo_build() {
    let c = Command::from_args(&args(&["oxide", "build", "demo"])).unwrap();
    let plan = c.execute().unwrap();
    assert_eq!(plan.program, "cargo".to_string());
    assert_eq!(plan.args, vec!["build".to_string(), "-p".to_string(), "demo".to_string()]);
    assert_eq!(plan.launch_failure_msg, "Failed to execute cargo build command".to_string());
    assert_eq!(plan.exit_failure_msg, "Cargo build for demo failed".to_string());
}

#[test]
fn execute_without_package_fails() {
    let c = Command::from_args(&args(&["oxide", "build"])).unwrap();
    let r = c.execute();
    assert!(matches!(r, Err(OxideError::MissingPackageName(Action::Build))));
}

#[test]
fn execute_plans_fly_deploy() {
    let c = Command::from_args(&args(&["oxide", "deploy", "ignored"])).unwrap();
    let plan = c.execute().unwrap();
    assert_eq!(plan.program, "flyctl".to_string());
    assert_eq!(plan.args, vec!["deploy".to_string()]);
    assert_eq!(plan.launch_failure_msg, "Failed to execute fly deploy command".to_string());
    assert_eq!(plan.exit_failure_msg, "Fly deploy failed".to_string());
}

#[test]
fn execute_plans_setup_script() {
    let c = Command::from_args(&args(&["oxide", "setup"])).unwrap();
    let plan = c.execute().unwrap();
    assert_eq!(plan.program, "./setup.sh".to_string());
    assert!(plan.args.is_empty());
    assert_eq!(
        plan.launch_failure_msg,
        "Failed to execute setup. Ensure that you are at the root of the project".to_string()
    );
    assert_eq!(plan.exit_failure_msg, "Setup failed".to_string());
}

#[test]
fn interpret_success_exit() {
    let c = Command::from_args(&args(&["oxide", "run", "demo"])).unwrap();
    let plan = c.execute().unwrap();
    assert!(plan.interpret(ProcessOutcome::Exited(true)).is_ok());
}

#[test]
fn interpret_failure_exit_names_package() {
    let c = Command::from_args(&args(&["oxide", "run", "demo"])).unwrap();
    let plan = c.execute().unwrap();
    let r = plan.interpret(ProcessOutcome::Exited(false));
    match r {
        Err(OxideError::CommandFailure(msg)) => {
            assert_eq!(msg, "Cargo run for demo failed".to_string());
            assert!(msg.contains("demo"));
        }
        _ => panic!("expected a command failure"),
    }
}

#[test]
fn interpret_launch_failure() {
    let c = Command::from_args(&args(&["oxide", "deploy"])).unwrap();
    let plan = c.execute().unwrap();
    let r = plan.interpret(ProcessOutcome::LaunchFailed);
    match r {
        Err(OxideError::ExecutionFailure(msg)) => {
            assert_eq!(msg, "Failed to execute fly deploy command".to_string());
        }
        _ => panic!("expected an execution failure"),
    }
}

#[test]
fn invalid_args_message_shows_usage() {
    let msg = OxideError::InvalidArgs.message();
    assert_eq!(
        msg,
        "Invalid or insufficient arguments. Usage: oxide [run|build] <PACKAGE> | [deploy] | [setup]"
            .to_string()
    );
}

#[test]
fn missing_package_message_names_action() {
    let msg = OxideError::MissingPackageName(Action::Build).message();
    assert_eq!(msg, "The 'Build' action requires a package name.".to_string());
}

#[test]
fn process_failure_messages_are_carried_through() {
    let msg = OxideError::CommandFailure("Cargo run for demo failed".to_string()).message();
    assert_eq!(msg, "Cargo run for demo failed".to_string());
    let msg = OxideError::ExecutionFailure("Failed to execute cargo run command".to_string())
        .message();
    assert_eq!(msg, "Failed to execute cargo run command".to_string());
}

#[test]
fn action_literals_and_names() {
    assert_eq!(Action::Run.literal(), "run");
    assert_eq!(Action::Build.literal(), "build");
    assert_eq!(Action::Deploy.literal(), "deploy");
    assert_eq!(Action::Setup.literal(), "setup");
    assert_eq!(Action::Run.name(), "Run");
    assert_eq!(Action::Setup.name(), "Setup");
}
