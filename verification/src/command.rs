use vstd::prelude::*;

use crate::action::Action;
use crate::action::needs_package;
use crate::errors::OxideError;
use crate::plan::ProcessPlan;
use crate::plan::fly_deploy;
use crate::plan::plan_is_for;
use crate::plan::run_or_build;
use crate::plan::setup;

verus! {

/// A parsed invocation: an action and the residual arguments that followed
/// it on the command line.
pub struct Command {
    pub action: Action,
    pub args: Vec<String>,
}

/// The action selected by a raw argument, if it is one of the four literals.
pub open spec fn action_of(word: Seq<char>) -> Option<Action> {
    if word == "run"@ {
        Some(Action::Run)
    } else if word == "build"@ {
        Some(Action::Build)
    } else if word == "deploy"@ {
        Some(Action::Deploy)
    } else if word == "setup"@ {
        Some(Action::Setup)
    } else {
        None
    }
}

/// What parsing a raw argument vector yields: the selected action together
/// with the residual arguments (everything from index 2 on, in order), or
/// the argument error when fewer than two arguments are present or the
/// argument at index 1 selects no action.
pub open spec fn parse_spec(args: Seq<String>) -> Result<(Action, Seq<String>), OxideError> {
    if args.len() < 2 {
        Err(OxideError::InvalidArgs)
    } else {
        match action_of(args[1]@) {
            Some(action) => Ok((action, args.skip(2))),
            None => Err(OxideError::InvalidArgs),
        }
    }
}

/// The package identifier a command carries: its first residual argument.
pub open spec fn spec_package(c: Command) -> Seq<char> {
    if c.args@.len() > 0 {
        c.args@[0]@
    } else {
        Seq::empty()
    }
}

/// Whether two string slices hold the same characters.
fn str_eq(a: &str, b: &str) -> (r: bool)
    ensures
        r == (a@ == b@),
{
    let owned_a: String = a.to_owned();
    let owned_b: String = b.to_owned();
    owned_a == owned_b
}

/// Parsing is a pure function of its input: two raw argument vectors that
/// are equal parse to equal results.
pub proof fn lemma_parse_deterministic(args1: Seq<String>, args2: Seq<String>)
    requires
        args1 == args2,
    ensures
        parse_spec(args1) == parse_spec(args2),
{
}

impl Command {
    /// Parses the raw argument vector — the program name stands at index 0 —
    /// into a command. Fails with the argument error exactly when fewer than
    /// two arguments are present or the argument at index 1 is not one of
    /// the four action literals; otherwise the command's action matches the
    /// literal and its residual arguments are everything from index 2 on.
    pub fn from_args(args: &Vec<String>) -> (r: Result<Command, OxideError>)
        ensures
            args@.len() < 2 ==> r == Err::<Command, OxideError>(OxideError::InvalidArgs),
            args@.len() >= 2 && action_of(args@[1]@) is None ==> r == Err::<Command, OxideError>(
                OxideError::InvalidArgs,
            ),
            match r {
                Ok(c) => parse_spec(args@) == Ok::<(Action, Seq<String>), OxideError>(
                    (c.action, c.args@),
                ),
                Err(e) => parse_spec(args@) == Err::<(Action, Seq<String>), OxideError>(e),
            },
    {
        if args.len() < 2 {
            return Err(OxideError::InvalidArgs);
        }
        let word: &String = &args[1];
        let action: Action = if str_eq(word.as_str(), "run") {
            Action::Run
        } else if str_eq(word.as_str(), "build") {
            Action::Build
        } else if str_eq(word.as_str(), "deploy") {
            Action::Deploy
        } else if str_eq(word.as_str(), "setup") {
            Action::Setup
        } else {
            return Err(OxideError::InvalidArgs);
        };
        let mut rest: Vec<String> = Vec::new();
        let mut i: usize = 2;
        while i < args.len()
            invariant
                2 <= i <= args@.len(),
                rest@ == args@.subrange(2, i as int),
            decreases args@.len() - i,
        {
            let next: String = args[i].clone();
            rest.push(next);
            i = i + 1;
        }
        Ok(Command { action, args: rest })
    }

    /// Checks that a run or build command carries a package identifier.
    /// Deploy and setup succeed whatever the residual arguments hold.
    pub fn validate(&self) -> (r: Result<(), OxideError>)
        ensures
            r is Ok <==> (!needs_package(self.action) || self.args@.len() > 0),
            r matches Err(e) ==> e == OxideError::MissingPackageName(self.action),
    {
        match self.action {
            Action::Run | Action::Build => {
                if self.args.len() > 0 {
                    Ok(())
                } else {
                    Err(OxideError::MissingPackageName(self.action))
                }
            },
            Action::Deploy | Action::Setup => Ok(()),
        }
    }

    /// Validates this command and plans the external call that carries it
    /// out: run and build hand their package identifier to the package
    /// manager and fail without one; deploy and setup ignore the residual
    /// arguments.
    pub fn execute(&self) -> (r: Result<ProcessPlan, OxideError>)
        ensures
            r is Ok <==> (!needs_package(self.action) || self.args@.len() > 0),
            r matches Ok(plan) ==> plan_is_for(plan, self.action, spec_package(*self)),
            r matches Err(e) ==> e == OxideError::MissingPackageName(self.action),
    {
        match self.action {
            Action::Run | Action::Build => {
                if self.args.len() > 0 {
                    Ok(run_or_build(&self.action, self.args[0].as_str()))
                } else {
                    Err(OxideError::MissingPackageName(self.action))
                }
            },
            Action::Deploy => Ok(fly_deploy()),
            Action::Setup => Ok(setup()),
        }
    }
}

} // verus!
