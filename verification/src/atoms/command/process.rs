//! What is exchanged with whoever creates operating-system processes: the
//! request to run a command, and what a finished process left behind.

use vstd::prelude::*;
use vstd::utf8::*;

verus! {

/// `std::io::Error`, carried through unread: the operating system's reason
/// for refusing to create a process.
#[verifier::external_type_specification]
#[verifier::external_body]
pub struct ExIoError(std::io::Error);

/// The operating system's own words for `error`, as `std::io::Error` formats
/// itself. They differ between systems, so nothing is claimed of them.
#[verifier::external_body]
pub(crate) fn os_error_text(error: &std::io::Error) -> String {
    error.to_string()
}

/// A command to run, with all that the new process is given.
#[derive(Debug, Clone, PartialEq, Eq)]
pub struct SpawnRequest {
    /// Name or path of the executable.
    pub command: String,
    /// Arguments, passed by position.
    pub arguments: Vec<String>,
    /// Variables that are added to the environment of the new process, in the
    /// order in which they are set.
    pub environment: Vec<(String, String)>,
    /// Directory in which the process starts; `None` stands for the current
    /// directory of the caller.
    pub working_dir: Option<String>,
}

/// A spawn request as mathematical text.
pub struct SpawnRequestView {
    pub command: Seq<char>,
    pub arguments: Seq<Seq<char>>,
    pub environment: Seq<(Seq<char>, Seq<char>)>,
    pub working_dir: Option<Seq<char>>,
}

impl View for SpawnRequest {
    type V = SpawnRequestView;

    open spec fn view(&self) -> SpawnRequestView {
        SpawnRequestView {
            command: self.command@,
            arguments: self.arguments.deep_view(),
            environment: self.environment.deep_view(),
            working_dir: self.working_dir.deep_view(),
        }
    }
}

/// What a process that ran to its end left behind: its exit code and the raw
/// bytes that it wrote to its two output streams.
#[derive(Debug, Clone, PartialEq, Eq)]
pub struct ProcessOutput {
    pub code: i32,
    pub stdout: Vec<u8>,
    pub stderr: Vec<u8>,
}

impl ProcessOutput {
    /// Whether both captured streams hold well-formed UTF-8.
    pub open spec fn is_text(&self) -> bool {
        valid_utf8(self.stdout@) && valid_utf8(self.stderr@)
    }
}

/// Turns captured bytes into text with `String::from_utf8`, which accepts
/// exactly the byte sequences that are well-formed UTF-8 and keeps the bytes
/// as they are; `None` stands for its error.
#[verifier::external_body]
pub(crate) fn text_from_utf8(bytes: Vec<u8>) -> (text: Option<String>)
    ensures
        text is Some <==> valid_utf8(bytes@),
        text matches Some(t) ==> encode_utf8(t@) == bytes@,
{
    match String::from_utf8(bytes) {
        Ok(t) => Some(t),
        Err(_) => None,
    }
}

/// Decodes captured bytes: the text that they encode, or `None` where they
/// are not well-formed UTF-8.
pub fn decode_output(bytes: Vec<u8>) -> (text: Option<String>)
    ensures
        text is Some <==> valid_utf8(bytes@),
        text matches Some(t) ==> t@ == decode_utf8(bytes@),
{
    let text = text_from_utf8(bytes);
    proof {
        if text is Some {
            encode_utf8_decode_utf8(text->0@);
        }
    }
    text
}

} // verus!
