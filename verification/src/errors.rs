use vstd::prelude::*;

use crate::action::Action;
use crate::action::action_name;

verus! {

/// A failure of the dispatcher, as the user sees it.
#[derive(Debug)]
pub enum OxideError {
    /// Fewer than two raw arguments, or an unrecognised action literal.
    InvalidArgs,
    /// A run or build invocation that carries no package identifier.
    MissingPackageName(Action),
    /// The external process could not be launched.
    ExecutionFailure(String),
    /// The external process ran and reported failure.
    CommandFailure(String),
}

/// The usage line reported for invalid arguments.
pub open spec fn usage_message() -> Seq<char> {
    "Invalid or insufficient arguments. Usage: oxide [run|build] <PACKAGE> | [deploy] | [setup]"@
}

impl OxideError {
    /// The human-readable message that reports this error.
    pub open spec fn spec_message(self) -> Seq<char> {
        match self {
            OxideError::InvalidArgs => usage_message(),
            OxideError::MissingPackageName(action) => "The '"@ + action_name(action)
                + "' action requires a package name."@,
            OxideError::ExecutionFailure(msg) => msg@,
            OxideError::CommandFailure(msg) => msg@,
        }
    }

    /// Renders the human-readable message.
    pub fn message(&self) -> (r: String)
        ensures
            r@ == self.spec_message(),
    {
        match self {
            OxideError::InvalidArgs => String::from_str(
                "Invalid or insufficient arguments. Usage: oxide [run|build] <PACKAGE> | [deploy] | [setup]",
            ),
            OxideError::MissingPackageName(action) => String::from_str("The '").concat(
                action.name(),
            ).concat("' action requires a package name."),
            OxideError::ExecutionFailure(msg) => msg.clone(),
            OxideError::CommandFailure(msg) => msg.clone(),
        }
    }
}

} // verus!
