//! What one invocation does before any pseudo-terminal is opened.
use vstd::prelude::*;
use crate::command::{has_separator, is_plain_name, names_file, parse_request, request_of, resolve_program, Program, Request};
use crate::lifecycle::{initial, Action, Coordinator, RunError};
use crate::size::{fits, term_size, SizeOverrides};

verus! {

/// How an invocation begins.
#[derive(Debug)]
pub enum Start {
    /// Print the usage text and exit with `code`.
    ShowHelp { code: i32 },
    /// Print the name and version and exit 0.
    ShowVersion,
    /// Report this failure and exit 1; nothing was opened or started.
    Refuse(RunError),
    /// Run `program`: perform `first`, then feed the run's events to `coordinator`.
    Launch { program: Program, coordinator: Coordinator, first: Action },
}

/// Whether `r` launches `program` with a fresh run whose first action opens
/// a pseudo-terminal sized by the overrides.
pub open spec fn launches(r: Start, overrides: SizeOverrides) -> bool {
    &&& r is Launch
    &&& r->coordinator == initial()
    &&& r->first matches Action::OpenPty(size) && fits(size, overrides)
}

/// Decides how an invocation begins from its first argument. Asking for help
/// or the version, or giving no argument, opens nothing and starts nothing. A
/// program name that holds `separator` is launched as given; any other is
/// looked up on the search path first, a file whose name begins with it is
/// launched, and a failed lookup is refused before
/// any pseudo-terminal is opened.
pub fn begin(first: Option<String>, separator: char, overrides: SizeOverrides) -> (r: Start)
    ensures
        request_of(first) matches Some(Request::Help { code }) ==> r == (Start::ShowHelp { code }),
        request_of(first) == Some(Request::Version) ==> r is ShowVersion,
        request_of(first) is None && has_separator(first.unwrap()@, separator) ==> {
            &&& launches(r, overrides)
            &&& r->program == Program::Given(first.unwrap())
        },
        request_of(first) is None && !has_separator(first.unwrap()@, separator) ==> {
            ||| launches(r, overrides) && r->program is Found
            ||| r matches Start::Refuse(RunError::CommandNotFound(_))
        },
        request_of(first) is None && !has_separator(first.unwrap()@, separator)
            && is_plain_name(first.unwrap()@) ==> (r is Launch ==> (
            r->program matches Program::Found { file_name: Some(f), .. } && names_file(first.unwrap()@, f@))),
{
    match parse_request(first) {
        Request::Help { code } => Start::ShowHelp { code },
        Request::Version => Start::ShowVersion,
        Request::Run { program } => match resolve_program(program, separator) {
            Err(failure) => Start::Refuse(RunError::CommandNotFound(failure)),
            Ok(program) => {
                let size = term_size(overrides);
                let (coordinator, first) = Coordinator::new(size);
                Start::Launch { program, coordinator, first }
            },
        },
    }
}

} // verus!
