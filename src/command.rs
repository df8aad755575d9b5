//! The command line and where the program to run is found.
use vstd::prelude::*;

verus! {

#[verifier::external_type_specification]
#[verifier::external_body]
pub struct ExPathBuf(std::path::PathBuf);

/// What the first command-line argument asks for.
#[derive(Clone, Debug, PartialEq, Eq)]
pub enum Request {
    /// Print the usage text and exit with `code`.
    Help { code: i32 },
    /// Print the name and version and exit 0.
    Version,
    /// Run `program` under a pseudo-terminal.
    Run { program: String },
}

/// Why a program name could not be found on the search path.
#[derive(Clone, Copy, Debug, PartialEq, Eq, Structural)]
pub enum LookupFailure {
    /// No directory of the search path holds an executable of that name.
    NotFound,
    /// There was no search path and no current directory to search.
    NothingToSearch,
    /// The path found could not be made canonical.
    NotCanonical,
}

/// A failed lookup: its kind, and the words the search gave for it.
#[derive(Clone, Debug, PartialEq, Eq)]
pub struct LookupError {
    pub kind: LookupFailure,
    pub message: String,
}

/// Where the program to run lives.
#[derive(Debug)]
pub enum Program {
    /// The name held a path separator and is used as given.
    Given(String),
    /// The name was looked up on the search path, which gave `path`, whose
    /// last component is `file_name` where it has one.
    Found { path: std::path::PathBuf, file_name: Option<String> },
}

pub open spec fn is_help_flag(s: Seq<char>) -> bool {
    s == "-h"@ || s == "--help"@
}

pub open spec fn is_version_flag(s: Seq<char>) -> bool {
    s == "-V"@ || s == "--version"@
}

/// The request that the first argument (if any) makes. Without arguments the
/// usage text is printed and the exit code is 1; asked for, it exits 0.
pub open spec fn request_of(first: Option<String>) -> Option<Request> {
    match first {
        None => Some(Request::Help { code: 1 }),
        Some(a) => if is_help_flag(a@) {
            Some(Request::Help { code: 0 })
        } else if is_version_flag(a@) {
            Some(Request::Version)
        } else {
            None
        },
    }
}

/// Whether two characters are equal once ASCII letters are taken in lower case.
pub open spec fn same_ignoring_ascii_case(a: char, b: char) -> bool {
    ||| a == b
    ||| 'A' <= a <= 'Z' && b as u32 == a as u32 + 32
    ||| 'A' <= b <= 'Z' && a as u32 == b as u32 + 32
}

/// Whether the file name `found` begins with `name`, ignoring the case of
/// ASCII letters. A search may append an extension and correct the case.
pub open spec fn names_file(name: Seq<char>, found: Seq<char>) -> bool {
    &&& name.len() <= found.len()
    &&& forall|i: int| 0 <= i < name.len() ==> same_ignoring_ascii_case(#[trigger] name[i], found[i])
}

/// Whether `name` is one path component on every platform: it holds no
/// `/`, `\` or `:`.
pub open spec fn is_plain_name(name: Seq<char>) -> bool {
    forall|i: int| 0 <= i < name.len() ==> #[trigger] name[i] != '/' && name[i] != '\\' && name[i] != ':'
}

pub open spec fn has_separator(s: Seq<char>, separator: char) -> bool {
    exists|i: int| 0 <= i < s.len() && s[i] == separator
}

/// Whether two texts hold the same characters.
pub fn same_text(a: &str, b: &str) -> (r: bool)
    ensures
        r == (a@ == b@),
{
    let n = a.unicode_len();
    if n != b.unicode_len() {
        return false;
    }
    let mut i: usize = 0;
    while i < n
        invariant
            n == a@.len() == b@.len(),
            i <= n,
            a@.take(i as int) == b@.take(i as int),
        decreases n - i,
    {
        if a.get_char(i) != b.get_char(i) {
            return false;
        }
        assert(a@.take(i + 1) =~= a@.take(i as int).push(a@[i as int]));
        assert(b@.take(i + 1) =~= b@.take(i as int).push(b@[i as int]));
        i = i + 1;
    }
    assert(a@ =~= a@.take(n as int));
    assert(b@ =~= b@.take(n as int));
    true
}

/// Whether `text` holds the character `separator`.
pub fn contains_separator(text: &str, separator: char) -> (r: bool)
    ensures
        r == has_separator(text@, separator),
{
    let n = text.unicode_len();
    let mut i: usize = 0;
    while i < n
        invariant
            n == text@.len(),
            i <= n,
            forall|k: int| 0 <= k < i ==> text@[k] != separator,
        decreases n - i,
    {
        if text.get_char(i) == separator {
            return true;
        }
        i = i + 1;
    }
    false
}

/// Reads the first command-line argument: `-h` or `--help` asks for the usage
/// text (exit 0), `-V` or `--version` for the version; no argument prints the
/// usage text with exit code 1; anything else names the program to run.
pub fn parse_request(first: Option<String>) -> (r: Request)
    ensures
        match request_of(first) {
            Some(q) => r == q,
            None => r == (Request::Run { program: first.unwrap() }),
        },
{
    match first {
        None => Request::Help { code: 1 },
        Some(arg) => {
            let a = arg.as_str();
            proof {
                reveal_strlit("-h");
                reveal_strlit("--help");
                reveal_strlit("-V");
                reveal_strlit("--version");
            }
            if same_text(a, "-h") || same_text(a, "--help") {
                Request::Help { code: 0 }
            } else if same_text(a, "-V") || same_text(a, "--version") {
                Request::Version
            } else {
                Request::Run { program: arg }
            }
        },
    }
}

/// Relies on which::which: joins `name` to each directory of the search path
/// and returns the first join that is an executable file, with the case of
/// its file name corrected and an extension appended on Windows. So a plain
/// name is the start of the found file name, up to ASCII case. The error's
/// kind tells which::Error's variants apart and keeps its words. Whether the
/// search succeeds depends on the environment and the disk.
#[verifier::external_body]
fn search_path(name: &str) -> (r: Result<(std::path::PathBuf, Option<String>), LookupError>)
    ensures
        is_plain_name(name@) ==> (r matches Ok(found) ==> (found.1 matches Some(f) && names_file(name@, f@))),
{
    match which::which(name) {
        Ok(path) => {
            let file_name = path.file_name().map(|f| f.to_string_lossy().into_owned());
            Ok((path, file_name))
        },
        Err(e) => Err(LookupError { message: e.to_string(), kind: match e {
            which::Error::CannotFindBinaryPath => LookupFailure::NotFound,
            which::Error::CannotGetCurrentDirAndPathListEmpty => LookupFailure::NothingToSearch,
            which::Error::CannotCanonicalize => LookupFailure::NotCanonical,
        } }),
    }
}

/// Finds the program: a name that holds `separator` is a path and is used as
/// given, with no lookup; any other name is looked up on the search path,
/// which either fails or finds a file whose name begins with that name.
pub fn resolve_program(name: String, separator: char) -> (r: Result<Program, LookupError>)
    ensures
        has_separator(name@, separator) ==> r == Ok::<Program, LookupError>(Program::Given(name)),
        !has_separator(name@, separator) ==> (r matches Ok(p) ==> p is Found),
        !has_separator(name@, separator) && is_plain_name(name@) ==> (r matches Ok(p) ==> (
            p matches Program::Found { file_name: Some(f), .. } && names_file(name@, f@))),
{
    if contains_separator(name.as_str(), separator) {
        Ok(Program::Given(name))
    } else {
        match search_path(name.as_str()) {
            Ok((path, file_name)) => Ok(Program::Found { path, file_name }),
            Err(e) => Err(e),
        }
    }
}

} // verus!
