use vstd::prelude::*;

verus! {

/// One of the four supported subcommands.
#[derive(Clone, Copy, Debug, PartialEq, Eq, Structural)]
pub enum Action {
    Run,
    Build,
    Deploy,
    Setup,
}

/// The command-line literal that selects an action.
pub open spec fn action_literal(action: Action) -> Seq<char> {
    match action {
        Action::Run => "run"@,
        Action::Build => "build"@,
        Action::Deploy => "deploy"@,
        Action::Setup => "setup"@,
    }
}

/// The capitalised name of an action, as error messages spell it.
pub open spec fn action_name(action: Action) -> Seq<char> {
    match action {
        Action::Run => "Run"@,
        Action::Build => "Build"@,
        Action::Deploy => "Deploy"@,
        Action::Setup => "Setup"@,
    }
}

/// Whether an action needs a package identifier among the residual arguments.
pub open spec fn needs_package(action: Action) -> bool {
    action is Run || action is Build
}

impl Action {
    /// The command-line literal that selects this action.
    pub fn literal(&self) -> (r: &'static str)
        ensures
            r@ == action_literal(*self),
    {
        match self {
            Action::Run => "run",
            Action::Build => "build",
            Action::Deploy => "deploy",
            Action::Setup => "setup",
        }
    }

    /// The capitalised name of this action, for error messages.
    pub fn name(&self) -> (r: &'static str)
        ensures
            r@ == action_name(*self),
    {
        match self {
            Action::Run => "Run",
            Action::Build => "Build",
            Action::Deploy => "Deploy",
            Action::Setup => "Setup",
        }
    }
}

} // verus!
