//! Privilege elevation: whether a command has to be re-issued through the
//! elevation tool, and what is run in its place.

use vstd::prelude::*;

verus! {

/// The name of the tool that re-issues a command under the superuser's identity.
pub open spec fn elevation_tool() -> Seq<char> {
    "sudo"@
}

/// The account name of the superuser.
pub open spec fn superuser_name() -> Seq<char> {
    "root"@
}

/// Whether a command has to go through the elevation tool: elevation was asked
/// for and the invoking user is not the superuser already.
pub open spec fn must_elevate(privileged: bool, superuser: bool) -> bool {
    privileged && !superuser
}

/// The command that is run in place of `command`.
pub open spec fn elevated_command(command: Seq<char>, privileged: bool, superuser: bool) -> Seq<
    char,
> {
    if must_elevate(privileged, superuser) {
        elevation_tool()
    } else {
        command
    }
}

/// The arguments that are passed in place of `arguments`: under elevation the
/// command itself comes first, followed by its arguments in their order.
pub open spec fn elevated_arguments(
    command: Seq<char>,
    arguments: Seq<Seq<char>>,
    privileged: bool,
    superuser: bool,
) -> Seq<Seq<char>> {
    if must_elevate(privileged, superuser) {
        seq![command] + arguments
    } else {
        arguments
    }
}

/// A command that does not ask for privileges is run as it is, whoever the
/// invoking user may be.
pub proof fn lemma_unprivileged_is_unchanged(
    command: Seq<char>,
    arguments: Seq<Seq<char>>,
    superuser: bool,
)
    ensures
        elevated_command(command, false, superuser) == command,
        elevated_arguments(command, arguments, false, superuser) == arguments,
{
}

/// A command that asks for privileges is run as it is where the invoking
/// user is the superuser already.
pub proof fn lemma_superuser_is_unchanged(command: Seq<char>, arguments: Seq<Seq<char>>)
    ensures
        elevated_command(command, true, true) == command,
        elevated_arguments(command, arguments, true, true) == arguments,
{
}

/// A command that asks for privileges is, for any other user, replaced by
/// the elevation tool, which is handed the command as its first argument and
/// the command's arguments after it, in their order.
pub proof fn lemma_other_user_is_elevated(command: Seq<char>, arguments: Seq<Seq<char>>)
    ensures
        elevated_command(command, true, false) == "sudo"@,
        elevated_arguments(command, arguments, true, false) == seq![command] + arguments,
        elevated_arguments(command, arguments, true, false).len() == arguments.len() + 1,
        elevated_arguments(command, arguments, true, false)[0] == command,
        forall|i: int|
            0 <= i < arguments.len() ==> #[trigger] elevated_arguments(
                command,
                arguments,
                true,
                false,
            )[i + 1] == arguments[i],
{
}

/// Asks `whoami::username` for the name of the user that runs this process.
/// The answer depends on the machine and the account, so nothing is claimed
/// of it.
#[verifier::external_body]
pub(crate) fn current_username() -> String {
    whoami::username()
}

/// Whether `username` names the superuser.
pub fn is_superuser(username: &String) -> (superuser: bool)
    ensures
        superuser == (username@ == superuser_name()),
{
    let root = "root".to_owned();
    *username == root
}

/// Decides what is run for `command` with `arguments`: the two unchanged
/// unless elevation is needed, else the elevation tool with the command and
/// its arguments as the tool's arguments.
pub fn elevate(command: &String, arguments: &Vec<String>, privileged: bool, superuser: bool) -> (effective:
    (String, Vec<String>))
    ensures
        effective.0@ == elevated_command(command@, privileged, superuser),
        effective.1.deep_view() == elevated_arguments(
            command@,
            arguments.deep_view(),
            privileged,
            superuser,
        ),
{
    if !privileged || superuser {
        let same = arguments.clone();
        assert(same.deep_view() =~= arguments.deep_view());
        return (command.clone(), same);
    }
    let mut wrapped: Vec<String> = Vec::new();
    wrapped.push(command.clone());
    let mut rest = arguments.clone();
    wrapped.append(&mut rest);
    assert(wrapped.deep_view() =~= seq![command@] + arguments.deep_view());
    ("sudo".to_owned(), wrapped)
}

} // verus!
