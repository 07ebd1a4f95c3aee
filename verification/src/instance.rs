//! What is said when a guest cannot be loaded, and what is made of the way
//! in which a guest that runs as a command ends.

use vstd::prelude::*;
use vstd::string::*;

verus! {

/// The error for a sandbox image that could not be loaded.
pub open spec fn load_failure_text(name: Seq<char>, cause: Seq<char>) -> Seq<char> {
    "Failed to load component '"@ + name + "': "@ + cause
}

/// The error for a sandbox image of the tenant `name` that could not be
/// loaded.
pub fn load_failure(name: &str, cause: &str) -> (text: String)
    ensures
        text@ == load_failure_text(name@, cause@),
{
    let mut text = String::from_str("Failed to load component '");
    text.append(name);
    text.append("': ");
    text.append(cause);
    text
}

/// The error for a command whose run could not be carried out.
pub open spec fn run_failure_text(name: Seq<char>, cause: Seq<char>) -> Seq<char> {
    "Failed running command interface for '"@ + name + "': "@ + cause
}

/// How the run of a guest's command ended, as the host takes it.
#[derive(Debug)]
pub enum CommandOutcome {
    /// The command ended well.
    Success,
    /// The command ended with a failure of its own: the host exits with
    /// this code.
    Exit { code: i32 },
    /// The command could not be run.
    Error(String),
}

/// Takes the way in which the command of the tenant `name` ended: the
/// command's own verdict, or the reason why it could not be run.
pub fn command_outcome(name: &str, ended: Result<Result<(), ()>, String>) -> (outcome:
    CommandOutcome)
    ensures
        match ended {
            Ok(Ok(_)) => outcome is Success,
            Ok(Err(_)) => outcome matches CommandOutcome::Exit { code } && code == 1,
            Err(cause) => outcome matches CommandOutcome::Error(text) && text@
                == run_failure_text(name@, cause@),
        },
{
    match ended {
        Ok(Ok(_)) => CommandOutcome::Success,
        Ok(Err(_)) => CommandOutcome::Exit { code: 1 },
        Err(cause) => {
            let mut text = String::from_str("Failed running command interface for '");
            text.append(name);
            text.append("': ");
            text.append(cause.as_str());
            CommandOutcome::Error(text)
        },
    }
}

} // verus!
