//! The prompt builder: the instructions of each task, which are never cut, and
//! the context that goes with them, which is what the token budget cuts.

use crate::changes::{ChangeSet, ChangeSetView};
use crate::text::{join, joined};
use vstd::prelude::*;

verus! {

/// What the model is asked to write.
#[derive(Clone, Copy, Debug, PartialEq, Eq, Structural)]
pub enum TaskKind {
    /// A commit message for the staged changes.
    CommitMessage,
    /// Additions to the README that the staged changes call for.
    ReadmeUpdate,
    /// A branch name and a pull request description for the unpushed commits.
    BranchAndPr,
}

/// Who speaks in a message of a prompt.
#[derive(Clone, Copy, Debug, PartialEq, Eq, Structural)]
pub enum Role {
    System,
    User,
}

/// One message of a prompt.
#[derive(Debug)]
pub struct Message {
    pub role: Role,
    pub content: String,
}

/// The payload of one request to the model: one system message, then one user
/// message. It cannot be changed once it is built.
#[derive(Debug)]
pub struct PromptSpec {
    system: String,
    user: String,
}

/// The system message of a task.
pub open spec fn system_text(kind: TaskKind) -> Seq<char> {
    match kind {
        TaskKind::CommitMessage => "You are a helpful assistant that generates concise and meaningful Git commit messages."@,
        TaskKind::ReadmeUpdate => "You are a helpful assistant that keeps the README of a project accurate and up to date."@,
        TaskKind::BranchAndPr => "You are a helpful assistant that names Git branches and writes pull request descriptions."@,
    }
}

/// The instructions of a task: what is asked for, and in which words it must
/// not be answered. The commit message task adds the subjects of the last
/// commits as an example of the project's style.
pub open spec fn instructions_text(kind: TaskKind, changes: ChangeSetView) -> Seq<char> {
    match kind {
        TaskKind::CommitMessage => "Write a highly specific, imperative Git commit message based only on the following changes. Do NOT use generic phrases like 'improved readability', 'aesthetic appeal', or 'refactored code'. Instead, reference concrete details such as filenames, functions, variables, or logic that was changed. Be precise about what was changed, how, and why. Do not include any other text except the commit message. Consider the context of the last 5 commit messages:\n\nLast 5 commit messages:\n"@
            + joined(changes.recent_subjects, "\n"@) + "\n\nCurrent changes:\n"@,
        TaskKind::ReadmeUpdate => "Suggest additions to the README based only on the following staged changes. Do NOT use generic phrases like 'improved documentation', 'various enhancements', or 'minor updates'. Instead, reference concrete details such as filenames, functions, commands, or options that were changed. Write each suggestion on a line of its own, as text that can be added to the README as it stands. Do not include any other text except the suggestions.\n\n"@,
        TaskKind::BranchAndPr => "Propose a short, specific branch name and a pull request description for the following unpushed commits. Do NOT use generic phrases like 'misc fixes', 'updates', or 'improvements'. Instead, reference concrete details such as filenames, functions, or behavior that was changed. Write the branch name on the first line and the description below it. Do not include any other text.\n\nUnpushed commits:\n"@,
    }
}

/// The context of a task, before it is cut to the budget. For a commit message
/// it is the staged diff. For a README update it is the current README, where
/// there is one, then the names of the changed files and the staged diff, so
/// that what is cut is the end of the diff. For a branch and pull request it
/// is the subjects of the unpushed commits.
pub open spec fn context_text(kind: TaskKind, changes: ChangeSetView, readme: Seq<char>) -> Seq<
    char,
> {
    match kind {
        TaskKind::CommitMessage => changes.diff,
        TaskKind::ReadmeUpdate => readme_section(readme) + "Changed files:\n"@ + joined(
            changes.files,
            "\n"@,
        ) + "\n\nStaged changes:\n"@ + changes.diff,
        TaskKind::BranchAndPr => joined(changes.recent_subjects, "\n"@),
    }
}

/// The part of the README context that shows the current README; empty where
/// there is no README yet.
pub open spec fn readme_section(readme: Seq<char>) -> Seq<char> {
    if readme.len() == 0 {
        Seq::empty()
    } else {
        "Current README:\n"@ + readme + "\n\n"@
    }
}

/// The system message of a task.
pub fn system_message(kind: TaskKind) -> (s: String)
    ensures
        s@ == system_text(kind),
{
    match kind {
        TaskKind::CommitMessage => "You are a helpful assistant that generates concise and meaningful Git commit messages.".to_owned(),
        TaskKind::ReadmeUpdate => "You are a helpful assistant that keeps the README of a project accurate and up to date.".to_owned(),
        TaskKind::BranchAndPr => "You are a helpful assistant that names Git branches and writes pull request descriptions.".to_owned(),
    }
}

/// The instructions of a task. They are part of every prompt in full.
pub fn task_instructions(kind: TaskKind, changes: &ChangeSet) -> (s: String)
    ensures
        s@ == instructions_text(kind, changes@),
{
    match kind {
        TaskKind::CommitMessage => {
            let mut s = "Write a highly specific, imperative Git commit message based only on the following changes. Do NOT use generic phrases like 'improved readability', 'aesthetic appeal', or 'refactored code'. Instead, reference concrete details such as filenames, functions, variables, or logic that was changed. Be precise about what was changed, how, and why. Do not include any other text except the commit message. Consider the context of the last 5 commit messages:\n\nLast 5 commit messages:\n".to_owned();
            s.append(join(&changes.recent_subjects, "\n").as_str());
            s.append("\n\nCurrent changes:\n");
            s
        },
        TaskKind::ReadmeUpdate => "Suggest additions to the README based only on the following staged changes. Do NOT use generic phrases like 'improved documentation', 'various enhancements', or 'minor updates'. Instead, reference concrete details such as filenames, functions, commands, or options that were changed. Write each suggestion on a line of its own, as text that can be added to the README as it stands. Do not include any other text except the suggestions.\n\n".to_owned(),
        TaskKind::BranchAndPr => "Propose a short, specific branch name and a pull request description for the following unpushed commits. Do NOT use generic phrases like 'misc fixes', 'updates', or 'improvements'. Instead, reference concrete details such as filenames, functions, or behavior that was changed. Write the branch name on the first line and the description below it. Do not include any other text.\n\nUnpushed commits:\n".to_owned(),
    }
}

/// The context of a task, before it is cut to the budget. `readme` is the
/// current README, empty where there is none.
pub fn variable_context(kind: TaskKind, changes: &ChangeSet, readme: &str) -> (s: String)
    ensures
        s@ == context_text(kind, changes@, readme@),
{
    match kind {
        TaskKind::CommitMessage => changes.diff.clone(),
        TaskKind::ReadmeUpdate => {
            let mut s = String::new();
            if !readme.is_empty() {
                s.append("Current README:\n");
                s.append(readme);
                s.append("\n\n");
            }
            s.append("Changed files:\n");
            s.append(join(&changes.files, "\n").as_str());
            s.append("\n\nStaged changes:\n");
            s.append(changes.diff.as_str());
            s
        },
        TaskKind::BranchAndPr => join(&changes.recent_subjects, "\n"),
    }
}

impl PromptSpec {
    /// The content of the system message.
    pub closed spec fn system_of(self) -> Seq<char> {
        self.system@
    }

    /// The content of the user message.
    pub closed spec fn user_of(self) -> Seq<char> {
        self.user@
    }

    /// Builds the prompt of a task: the system message of the task, and a user
    /// message made of the task's instructions in full, followed by `context`,
    /// which the caller has cut to the budget.
    pub fn build(kind: TaskKind, changes: &ChangeSet, context: &str) -> (p: PromptSpec)
        ensures
            p.system_of() == system_text(kind),
            p.user_of() == instructions_text(kind, changes@) + context@,
    {
        let mut user = task_instructions(kind, changes);
        user.append(context);
        PromptSpec { system: system_message(kind), user }
    }

    /// The content of the system message.
    pub fn system(&self) -> (s: &str)
        ensures
            s@ == self.system_of(),
    {
        self.system.as_str()
    }

    /// The content of the user message.
    pub fn user(&self) -> (s: &str)
        ensures
            s@ == self.user_of(),
    {
        self.user.as_str()
    }

    /// The messages in the order in which they are sent: the system message,
    /// then the user message.
    pub fn messages(&self) -> (v: Vec<Message>)
        ensures
            v.len() == 2,
            v[0].role == Role::System,
            v[0].content@ == self.system_of(),
            v[1].role == Role::User,
            v[1].content@ == self.user_of(),
    {
        vec![
            Message { role: Role::System, content: self.system.clone() },
            Message { role: Role::User, content: self.user.clone() },
        ]
    }
}

} // verus!
