//! What is said when a terminal cannot be started.
use crate::paths::{to_str, to_string_lossy};
use crate::task::Shell;
use crate::text::join_from;
use std::path::PathBuf;
use vstd::prelude::*;
use vstd::string::*;

verus! {

/// A terminal could not be started: where, with what, and what the system said.
pub struct TerminalError {
    pub directory: Option<PathBuf>,
    pub shell: Shell,
    pub source: String,
}

/// `dirs::home_dir`: the user's home directory, where it can be found. It depends on the
/// environment of the process and on the system's users, so nothing is said of it.
#[verifier::external_body]
fn home_dir() -> (dir: Option<PathBuf>) {
    dirs::home_dir()
}

/// A directory as it is told; where none was given, the home directory takes its place.
pub open spec fn directory_told(directory: Option<PathBuf>, home: Option<PathBuf>) -> Seq<char> {
    match directory {
        Some(path) => match crate::paths::path_text(path) {
            Some(text) => text,
            None => "<non-utf8 path> "@ + crate::paths::lossy_path_text(path),
        },
        None => match home {
            Some(dir) => "<none specified, using home directory> "@
                + crate::paths::lossy_path_text(dir),
            None => "<none specified, could not find home directory>"@,
        },
    }
}

/// A shell as it is told.
pub open spec fn shell_told(shell: Shell) -> Seq<char> {
    match shell {
        Shell::System => "<system defined shell>"@,
        Shell::Program(program) => program@,
        Shell::WithArguments { program, args, title_override } => {
            let command = program@ + " "@ + crate::text::joined(crate::text::texts(args@), " "@);
            match title_override {
                Some(title) => command + " ("@ + title@ + ")"@,
                None => command,
            }
        },
    }
}

/// What is told of a failure.
pub open spec fn failure_told(
    directory: Seq<char>,
    shell: Seq<char>,
    source: Seq<char>,
) -> Seq<char> {
    "Working directory: "@ + directory + " Shell command: `"@ + shell + "`, IOError: "@ + source
}

/// A directory as it is told; where none was given, the home directory takes its place.
pub fn directory_text(directory: &Option<PathBuf>, home: Option<PathBuf>) -> (text: String)
    ensures
        text@ == directory_told(*directory, home),
{
    match directory {
        Some(path) => match to_str(path) {
            Some(text) => text,
            None => {
                let mut text = "<non-utf8 path> ".to_owned();
                text.append(to_string_lossy(path).as_str());
                text
            },
        },
        None => match home {
            Some(dir) => {
                let mut text = "<none specified, using home directory> ".to_owned();
                text.append(to_string_lossy(&dir).as_str());
                text
            },
            None => "<none specified, could not find home directory>".to_owned(),
        },
    }
}

impl TerminalError {
    /// The directory, as it is told.
    pub fn fmt_directory(&self) -> (text: String)
        ensures
            exists|home: Option<PathBuf>|
                text@ == #[trigger] directory_told(self.directory, home),
            self.directory is Some ==> text@ == directory_told(self.directory, None),
    {
        directory_text(&self.directory, home_dir())
    }

    /// The shell, as it is told.
    pub fn fmt_shell(&self) -> (text: String)
        ensures
            text@ == shell_told(self.shell),
    {
        match &self.shell {
            Shell::System => "<system defined shell>".to_owned(),
            Shell::Program(program) => program.clone(),
            Shell::WithArguments { program, args, title_override } => {
                let mut text = program.clone();
                text.append(" ");
                text.append(join_from(args, 0, " ").as_str());
                assert(args@.skip(0) =~= args@);
                if let Some(title) = title_override {
                    text.append(" (");
                    text.append(title.as_str());
                    text.append(")");
                }
                text
            },
        }
    }

    /// The failure, as it is told.
    pub fn message(&self) -> (text: String)
        ensures
            exists|home: Option<PathBuf>|
                text@ == failure_told(
                    #[trigger] directory_told(self.directory, home),
                    shell_told(self.shell),
                    self.source@,
                ),
            self.directory is Some ==> text@ == failure_told(
                directory_told(self.directory, None),
                shell_told(self.shell),
                self.source@,
            ),
    {
        let mut text = "Working directory: ".to_owned();
        text.append(self.fmt_directory().as_str());
        text.append(" Shell command: `");
        text.append(self.fmt_shell().as_str());
        text.append("`, IOError: ");
        text.append(self.source.as_str());
        text
    }
}

} // verus!
