//! Tasks that run in a terminal.
use crate::text::{decimal_of, normalize_line_ends};
use vstd::prelude::*;
use vstd::string::*;

verus! {

/// The program that runs in a terminal.
#[derive(Clone, Debug)]
pub enum Shell {
    /// The one that the system has set for the user.
    System,
    /// A program without arguments.
    Program(String),
    /// A program with arguments.
    WithArguments { program: String, args: Vec<String>, title_override: Option<String> },
}

/// When the terminal of a finished task is closed.
#[derive(Clone, Copy, Debug, PartialEq, Eq, Structural)]
pub enum HideStrategy {
    Never,
    Always,
    OnSuccess,
}

/// What tells tasks apart.
#[derive(Clone, Debug)]
pub struct TaskId(pub String);

/// How the task of a terminal stands.
#[derive(Clone, Copy, Debug, PartialEq, Eq, Structural)]
pub enum TaskStatus {
    /// The task was started, but did not report its exit code before the terminal was shut down.
    Unknown,
    /// The task is running.
    Running,
    /// The task stopped and reported its exit code.
    Completed { success: bool },
}

impl TaskStatus {
    /// The status once the terminal is gone.
    pub open spec fn after_terminal_exit(self) -> TaskStatus {
        if self == TaskStatus::Running {
            TaskStatus::Unknown
        } else {
            self
        }
    }

    /// The status once the task has stopped with an exit code.
    pub open spec fn after_task_exit(self, error_code: i32) -> TaskStatus {
        TaskStatus::Completed { success: error_code == 0 }
    }

    /// The terminal is gone: a task that is still running will not be heard of again.
    pub fn register_terminal_exit(&mut self)
        ensures
            *final(self) == old(self).after_terminal_exit(),
    {
        if *self == TaskStatus::Running {
            *self = TaskStatus::Unknown;
        }
    }

    /// The task stopped with an exit code; zero means success.
    pub fn register_task_exit(&mut self, error_code: i32)
        ensures
            *final(self) == old(self).after_task_exit(error_code),
    {
        *self = TaskStatus::Completed { success: error_code == 0 };
    }
}

/// A task of a terminal.
pub struct TaskState {
    pub id: TaskId,
    pub full_label: String,
    pub label: String,
    pub command_label: String,
    pub status: TaskStatus,
    pub hide: HideStrategy,
    pub show_summary: bool,
    pub show_command: bool,
    pub show_rerun: bool,
}

/// The line that tells how a task of the given label ended.
pub open spec fn task_line(full_label: Seq<char>, error_code: Option<i32>) -> Seq<char> {
    let start = "⏵ Task `"@ + crate::text::line_ends_to_cr(full_label);
    match error_code {
        Some(code) => if code == 0 {
            start + "` finished successfully"@
        } else {
            start + "` finished with non-zero error code: "@ + crate::text::decimal(code as int)
        },
        None => start + "` finished"@,
    }
}

/// The line that tells which command was run.
pub open spec fn command_line(command_label: Seq<char>) -> Seq<char> {
    "⏵ Command: "@ + crate::text::line_ends_to_cr(command_label)
}

/// How a task ended: whether well, and the lines to show of it.
pub fn task_summary(task: &TaskState, error_code: Option<i32>) -> (summary: (bool, String, String))
    ensures
        summary.0 == (error_code == Some(0i32)),
        summary.1@ == task_line(task.full_label@, error_code),
        summary.2@ == command_line(task.command_label@),
{
    let escaped_full_label = normalize_line_ends(task.full_label.as_str());
    let mut line = "⏵ Task `".to_owned();
    line.append(escaped_full_label.as_str());
    let success = match error_code {
        Some(code) => {
            if code == 0 {
                line.append("` finished successfully");
                true
            } else {
                line.append("` finished with non-zero error code: ");
                line.append(decimal_of(code).as_str());
                false
            }
        },
        None => {
            line.append("` finished");
            false
        },
    };
    let escaped_command_label = normalize_line_ends(task.command_label.as_str());
    let mut command = "⏵ Command: ".to_owned();
    command.append(escaped_command_label.as_str());
    (success, line, command)
}

/// The lines to show of a finished task.
pub open spec fn lines_to_show(task: TaskState, error_code: Option<i32>) -> Seq<Seq<char>> {
    (if task.show_summary {
        seq![task_line(task.full_label@, error_code)]
    } else {
        Seq::empty()
    }) + (if task.show_command {
        seq![command_line(task.command_label@)]
    } else {
        Seq::empty()
    })
}

} // verus!
