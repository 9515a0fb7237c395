//! The notice that tells the user of a newer release.

use colored::{ColoredString, Colorize};
use vstd::prelude::*;
use vstd::string::StringExecFns;

verus! {

/// `colored::ColoredString`: text together with the style it is to be shown
/// in. Carried from the styling calls to the rendering call, unread.
#[verifier::external_type_specification]
#[verifier::external_body]
pub struct ExColoredString(ColoredString);

/// `colored::control::set_override`: from now on the `colored` crate styles
/// text, or leaves it plain, as `colorize` says, whatever the environment
/// asks for. It returns nothing.
#[verifier::external_body]
fn set_color_override(colorize: bool) {
    colored::control::set_override(colorize)
}

/// `Colorize::italic` on a `&str`: the text, marked as italic.
#[verifier::external_body]
fn italic(text: &str) -> ColoredString {
    text.italic()
}

/// `Colorize::cyan` on a `ColoredString`: the same text, marked as cyan.
#[verifier::external_body]
fn cyan(text: ColoredString) -> ColoredString {
    text.cyan()
}

/// `Colorize::green` on a `&str`: the text, marked as green.
#[verifier::external_body]
fn green(text: &str) -> ColoredString {
    text.green()
}

/// `Colorize::blue` on a `&str`: the text, marked as blue.
#[verifier::external_body]
fn blue(text: &str) -> ColoredString {
    text.blue()
}

/// What `ColoredString` writes when it is displayed: the plain text, or the
/// text between terminal escape sequences, as the environment, the terminal
/// and the override in force decide. Nothing is claimed of it.
#[verifier::external_body]
fn rendered(text: &ColoredString) -> String {
    text.to_string()
}

/// Turns terminal colours off for the rest of the process where the user
/// asked for that, and leaves the choice to the environment otherwise.
pub fn apply_color_choice(no_color: bool) {
    if no_color {
        set_color_override(false);
    }
}

/// The page that describes release `version` of project `name`.
pub open spec fn release_url_text(name: Seq<char>, version: Seq<char>) -> Seq<char> {
    "https://github.com/"@ + name + "/"@ + name + "/releases/tag/"@ + version
}

/// The address of the page that describes release `version` of `name`.
pub fn release_url(name: &str, version: &str) -> (url: String)
    ensures
        url@ == release_url_text(name@, version@),
{
    let mut url = "https://github.com/".to_owned();
    url.append(name);
    url.append("/");
    url.append(name);
    url.append("/releases/tag/");
    url.append(version);
    url
}

/// The command that installs the newest release.
pub open spec fn update_command() -> Seq<char> {
    "curl -fsSL https://get.comtrya.dev | sh"@
}

/// The update notice: an empty line, then one line each for the versions,
/// the changelog and the command to run. The parts are taken as they are,
/// styled or plain.
pub open spec fn notice_text(
    name: Seq<char>,
    current: Seq<char>,
    latest: Seq<char>,
    url: Seq<char>,
    command: Seq<char>,
) -> Seq<char> {
    "\nA new version of "@ + name + " is available: v"@ + current + " -> "@ + latest
        + "\nChangelog: "@ + url + "\nRun to update: "@ + command
}

/// Puts the update notice together from its parts.
pub fn compose_update_notice(name: &str, current: &str, latest: &str, url: &str, command: &str) -> (text:
    String)
    ensures
        text@ == notice_text(name@, current@, latest@, url@, command@),
{
    let mut text = "\nA new version of ".to_owned();
    text.append(name);
    text.append(" is available: v");
    text.append(current);
    text.append(" -> ");
    text.append(latest);
    text.append("\nChangelog: ");
    text.append(url);
    text.append("\nRun to update: ");
    text.append(command);
    text
}

/// The notice that release `latest` of `name` has replaced `current`, with
/// the name, the new version, the changelog's address and the command styled
/// for the terminal. How styled text is written out is the `colored` crate's
/// decision, so the notice is known up to those four parts.
pub fn update_notice(name: &str, current: &str, latest: &str) -> (text: String)
    ensures
        exists|styled_name: Seq<char>, styled_latest: Seq<char>, url: Seq<char>, command: Seq<char>|
            text@ == #[trigger] notice_text(styled_name, current@, styled_latest, url, command),
{
    let styled_name = rendered(&cyan(italic(name)));
    let styled_latest = rendered(&green(latest));
    let address = release_url(name, latest);
    let url = rendered(&blue(address.as_str()));
    let command = rendered(&green("curl -fsSL https://get.comtrya.dev | sh"));
    let text = compose_update_notice(
        styled_name.as_str(),
        current,
        styled_latest.as_str(),
        url.as_str(),
        command.as_str(),
    );
    assert(text@ == notice_text(styled_name@, current@, styled_latest@, url@, command@));
    text
}

} // verus!
