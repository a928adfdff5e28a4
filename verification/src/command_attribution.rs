//! Attribution of a command the agent requested to an environment-variable
//! collection the user keeps.

use vstd::prelude::*;

use crate::text::{str_eq, trim, trim_end_char, trim_end_matches_char, trimmed};

verus! {

/// What attribution reads of one variable of a collection, for the shell at
/// hand.
#[derive(Clone, Debug, PartialEq, Eq)]
pub struct EnvVarAttribution {
    /// The command the variable's value comes from, when it is one.
    pub command: Option<String>,
    /// The statement that sets the variable in the shell.
    pub initialization: String,
}

/// Whether `command` is the variable's command, or its initialisation with
/// or without trailing semicolons.
pub open spec fn copied_from_var(command: Seq<char>, var: EnvVarAttribution) -> bool {
    ||| (var.command matches Some(c) && c@ == command)
    ||| var.initialization@ == command
    ||| trim_end_char(var.initialization@, ';') == command
}

/// Whether `command` was copied from the collection: it exports every
/// variable (`export_for_shell`), or it is copied from one variable.
pub fn is_command_copied_from_env_var_collection(command: &str, export_for_shell: &str, vars: &Vec<EnvVarAttribution>) -> (copied: bool)
    ensures
        copied == (export_for_shell@ == command@ || exists|i: int|
            0 <= i < vars@.len() && copied_from_var(command@, #[trigger] vars@[i])),
{
    if str_eq(export_for_shell, command) {
        return true;
    }
    let mut i: usize = 0;
    while i < vars.len()
        invariant
            i <= vars.len(),
            export_for_shell@ != command@,
            forall|j: int| 0 <= j < i ==> !copied_from_var(command@, #[trigger] vars@[j]),
        decreases vars.len() - i,
    {
        let var = &vars[i];
        match &var.command {
            Some(c) => {
                if str_eq(c.as_str(), command) {
                    return true;
                }
            },
            None => {},
        }
        let init = var.initialization.as_str();
        if str_eq(init, command) || str_eq(trim_end_matches_char(init, ';'), command) {
            return true;
        }
        i += 1;
    }
    false
}

/// What a document cited by the agent is, as far as attribution goes.
#[derive(Clone, Debug, PartialEq, Eq)]
pub enum AgentCitation {
    /// An object of the user's drive, by its id.
    LocalObject { uid: String },
    /// Anything else (a web page, a file).
    Other,
}

/// What a local object id names: a workflow, with whether the command is an
/// instance of it; an environment-variable collection, read for the shell at
/// hand; or nothing.
pub enum LocalObject {
    Workflow { matches_command: bool },
    EnvVarCollection { export_for_shell: String, vars: Vec<EnvVarAttribution> },
    Missing,
}

/// Whether `command` comes from `object`: an instance of the workflow, or
/// copied from the collection when the shell is known.
pub open spec fn copied_from_local_object(command: Seq<char>, object: LocalObject, shell_known: bool) -> bool {
    match object {
        LocalObject::Workflow { matches_command } => matches_command,
        LocalObject::EnvVarCollection { export_for_shell, vars } => shell_known && (export_for_shell@ == command
            || exists|i: int| 0 <= i < vars@.len() && copied_from_var(command, #[trigger] vars@[i])),
        LocalObject::Missing => false,
    }
}

/// Whether `command` comes from the local object `object` (see
/// `copied_from_local_object`).
pub fn is_command_copied_from_local_object(command: &str, object: &LocalObject, shell_known: bool) -> (copied: bool)
    ensures
        copied == copied_from_local_object(command@, *object, shell_known),
{
    match object {
        LocalObject::Workflow { matches_command } => *matches_command,
        LocalObject::EnvVarCollection { export_for_shell, vars } => {
            shell_known && is_command_copied_from_env_var_collection(command, export_for_shell.as_str(), vars)
        },
        LocalObject::Missing => false,
    }
}

/// Whether `command`, without surrounding white space, was copied from the
/// cited `document`: only local objects are considered (`object` is what
/// the document's id names; a workflow's match is judged on the trimmed
/// command).
pub fn is_command_copied_from_document(
    command: &str,
    document: &AgentCitation,
    object: &LocalObject,
    shell_known: bool,
) -> (copied: bool)
    ensures
        copied == (document is LocalObject && copied_from_local_object(trimmed(command@), *object, shell_known)),
{
    let command = trim(command);
    match document {
        AgentCitation::LocalObject { .. } => is_command_copied_from_local_object(command, object, shell_known),
        AgentCitation::Other => false,
    }
}

} // verus!
