//! The title of a terminal.
use crate::paths::{file_name, to_string_lossy};
use crate::terminal::{ProcessInfo, Terminal};
use crate::text::join_from;
use vstd::prelude::*;
use vstd::string::*;

verus! {

/// How long the parts of a short title may be.
pub const MAX_TITLE_CHARS: usize = 25;

/// The directory that a process runs in, by its name alone.
pub open spec fn process_file(process: ProcessInfo) -> Seq<char> {
    match crate::paths::last_component(process.cwd) {
        Some(name) => crate::paths::lossy_path_text(name),
        None => Seq::empty(),
    }
}

/// A process with its arguments, of which the first is the program itself.
pub open spec fn process_name(process: ProcessInfo) -> Seq<char> {
    if process.argv@.len() == 0 {
        process.name@
    } else {
        process.name@ + " "@ + crate::text::joined(
            crate::text::texts(process.argv@.skip(1)),
            " "@,
        )
    }
}

/// What a title is made of.
pub struct TitleParts {
    /// The only part of the title, or the first of two.
    pub first: String,
    /// The second part, where there is one.
    pub second: Option<String>,
    /// Whether a short title has its parts shortened.
    pub shorten: bool,
}

/// The parts joined to a title.
pub open spec fn title_joined(first: Seq<char>, second: Option<Seq<char>>) -> Seq<char> {
    match second {
        Some(second) => first + " — "@ + second,
        None => first,
    }
}

/// Joins the parts to a title.
pub fn join_title(first: String, second: Option<String>) -> (title: String)
    ensures
        title@ == title_joined(first@, crate::content::optional_text(second)),
{
    let mut title = first;
    if let Some(second) = second {
        title.append(" — ");
        title.append(second.as_str());
    }
    title
}

impl Terminal {
    /// What the title is made of: the label of the task; without a task, the title that the shell
    /// came with; without that, the directory and the process in the foreground; and where that
    /// is not known, the word for it. What is said of a task or a process is shortened in a short
    /// title.
    pub open spec fn title_is_made_of(self, parts: TitleParts, truncate: bool) -> bool {
        let second = crate::content::optional_text(parts.second);
        match self.task {
            Some(task) => {
                &&& parts.first@ == (if truncate {
                    task.label@
                } else {
                    task.full_label@
                })
                &&& second is None
                &&& parts.shorten == truncate
            },
            None => match self.title_override {
                Some(title) => {
                    &&& parts.first@ == title@
                    &&& second is None
                    &&& !parts.shorten
                },
                None => match self.pty_info.current {
                    Some(process) => {
                        &&& parts.first@ == process_file(process)
                        &&& second == Some(process_name(process))
                        &&& parts.shorten == truncate
                    },
                    None => {
                        &&& parts.first@ == "Terminal"@
                        &&& second is None
                        &&& !parts.shorten
                    },
                },
            },
        }
    }

    /// What the title is made of.
    pub fn title_parts(&self, truncate: bool) -> (parts: TitleParts)
        ensures
            self.title_is_made_of(parts, truncate),
    {
        match &self.task {
            Some(task) => {
                let first = if truncate {
                    task.label.clone()
                } else {
                    task.full_label.clone()
                };
                TitleParts { first, second: None, shorten: truncate }
            },
            None => match &self.title_override {
                Some(title) => TitleParts { first: title.clone(), second: None, shorten: false },
                None => match &self.pty_info.current {
                    Some(process) => {
                        let first = match file_name(&process.cwd) {
                            Some(name) => to_string_lossy(&name),
                            None => String::new(),
                        };
                        let mut name = process.name.clone();
                        if process.argv.len() > 0 {
                            name.append(" ");
                            name.append(join_from(&process.argv, 1, " ").as_str());
                        }
                        TitleParts { first, second: Some(name), shorten: truncate }
                    },
                    None => TitleParts {
                        first: "Terminal".to_owned(),
                        second: None,
                        shorten: false,
                    },
                },
            },
        }
    }

    /// Whether the text is the title, given what the parts of a short one are shortened to.
    pub open spec fn has_title(
        self,
        truncate: bool,
        shortened: spec_fn(Seq<char>, Seq<char>) -> bool,
        title: Seq<char>,
    ) -> bool {
        exists|parts: TitleParts, first: Seq<char>, second: Option<Seq<char>>|
            {
                &&& #[trigger] self.title_is_made_of(parts, truncate)
                &&& if parts.shorten {
                    &&& shortened(parts.first@, first)
                    &&& second is Some == parts.second is Some
                    &&& second is Some ==> shortened(parts.second->0@, second->0)
                } else {
                    &&& first == parts.first@
                    &&& second == crate::content::optional_text(parts.second)
                }
                &&& title == #[trigger] title_joined(first, second)
            }
    }

    /// The title. A short one has its parts cut down by `truncate_and_trailoff`.
    pub fn title<F: Fn(&str, usize) -> String>(
        &self,
        truncate: bool,
        truncate_and_trailoff: F,
    ) -> (title: String)
        requires
            forall|text: &str| call_requires(truncate_and_trailoff, (text, MAX_TITLE_CHARS)),
        ensures
            self.has_title(
                truncate,
                |text: Seq<char>, short: Seq<char>|
                    exists|t: &str, s: String|
                        t@ == text && s@ == short && #[trigger] call_ensures(
                            truncate_and_trailoff,
                            (t, MAX_TITLE_CHARS),
                            s,
                        ),
                title@,
            ),
    {
        let parts = self.title_parts(truncate);
        let ghost shown = parts;
        let ghost short = |text: Seq<char>, short: Seq<char>|
            exists|t: &str, s: String|
                t@ == text && s@ == short && #[trigger] call_ensures(
                    truncate_and_trailoff,
                    (t, MAX_TITLE_CHARS),
                    s,
                );
        if parts.shorten {
            let first = truncate_and_trailoff(parts.first.as_str(), MAX_TITLE_CHARS);
            assert(short(shown.first@, first@));
            let second = match &parts.second {
                Some(second) => {
                    let second_short = truncate_and_trailoff(second.as_str(), MAX_TITLE_CHARS);
                    assert(short(shown.second->0@, second_short@));
                    Some(second_short)
                },
                None => None,
            };
            let ghost f = first@;
            let ghost s = crate::content::optional_text(second);
            let title = join_title(first, second);
            assert(self.title_is_made_of(shown, truncate) && title@ == title_joined(f, s));
            title
        } else {
            let ghost f = parts.first@;
            let ghost s = crate::content::optional_text(parts.second);
            let title = join_title(parts.first, parts.second);
            assert(self.title_is_made_of(shown, truncate) && title@ == title_joined(f, s));
            title
        }
    }
}

} // verus!
