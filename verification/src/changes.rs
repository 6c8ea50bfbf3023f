//! The change extractor: what is read from version control for one task, and
//! when there is nothing to work on.

use crate::error::CommitauraError;
use crate::prompt::TaskKind;
use crate::text::{
    blank, decimal, decimal_of, is_blank, lines, lines_of, texts, trim, trimmed,
};
use vstd::prelude::*;
use vstd::utf8::{decode_utf8, valid_utf8};

verus! {

/// How many recent commit subjects are read.
pub const RECENT_COMMITS: usize = 5;

/// The staged changes that one task works on.
#[derive(Debug)]
pub struct ChangeSet {
    /// The staged diff.
    pub diff: String,
    /// The paths of the changed files.
    pub files: Vec<String>,
    /// The subjects of the last commits, most recent first.
    pub recent_subjects: Vec<String>,
}

/// A change set as plain text.
pub struct ChangeSetView {
    /// The staged diff.
    pub diff: Seq<char>,
    /// The paths of the changed files.
    pub files: Seq<Seq<char>>,
    /// The subjects of the last commits, most recent first.
    pub recent_subjects: Seq<Seq<char>>,
}

impl View for ChangeSet {
    type V = ChangeSetView;

    open spec fn view(&self) -> ChangeSetView {
        ChangeSetView {
            diff: self.diff@,
            files: texts(self.files@),
            recent_subjects: texts(self.recent_subjects@),
        }
    }
}

/// What a version-control command left behind: whether it ended with status
/// zero, and what it wrote to its standard output.
#[derive(Debug)]
pub struct VcsOutput {
    /// Whether the command ended with status zero.
    pub success: bool,
    /// What the command wrote to its standard output.
    pub stdout: Vec<u8>,
}

/// A command of the version-control system that the pipeline asks for.
#[derive(Debug)]
pub enum VcsCommand {
    /// Whether anything is staged, told by the exit status alone.
    StagedQuiet,
    /// The subjects of the last commits, as many as given, most recent first.
    RecentSubjects(usize),
    /// The names of the staged files.
    StagedFiles,
    /// The staged diff.
    StagedDiff,
    /// Commit what is staged with this message.
    Commit(String),
    /// The name of the current branch.
    CurrentBranch,
    /// Create this branch and switch to it.
    CreateBranch(String),
    /// Push this branch to the remote `origin` and track it there.
    Push(String),
}

impl VcsCommand {
    /// The arguments that `git` is run with for this command.
    pub open spec fn arguments_of(self) -> Seq<Seq<char>> {
        match self {
            VcsCommand::StagedQuiet => seq!["diff"@, "--staged"@, "--quiet"@],
            VcsCommand::RecentSubjects(n) => seq![
                "log"@,
                "-"@ + decimal_of(n as nat),
                "--pretty=format:%s"@,
            ],
            VcsCommand::StagedFiles => seq!["diff"@, "--staged"@, "--name-only"@],
            VcsCommand::StagedDiff => seq!["diff"@, "--staged"@],
            VcsCommand::Commit(message) => seq!["commit"@, "-m"@, message@],
            VcsCommand::CurrentBranch => seq!["rev-parse"@, "--abbrev-ref"@, "HEAD"@],
            VcsCommand::CreateBranch(branch) => seq!["checkout"@, "-b"@, branch@],
            VcsCommand::Push(branch) => seq!["push"@, "-u"@, "origin"@, branch@],
        }
    }

    /// The arguments that `git` is run with for this command.
    pub fn arguments(&self) -> (v: Vec<String>)
        ensures
            texts(v@) == self.arguments_of(),
    {
        let v = match self {
            VcsCommand::StagedQuiet => vec![
                "diff".to_owned(),
                "--staged".to_owned(),
                "--quiet".to_owned(),
            ],
            VcsCommand::RecentSubjects(n) => vec![
                "log".to_owned(),
                "-".to_owned().concat(decimal(*n).as_str()),
                "--pretty=format:%s".to_owned(),
            ],
            VcsCommand::StagedFiles => vec![
                "diff".to_owned(),
                "--staged".to_owned(),
                "--name-only".to_owned(),
            ],
            VcsCommand::StagedDiff => vec!["diff".to_owned(), "--staged".to_owned()],
            VcsCommand::Commit(message) => vec![
                "commit".to_owned(),
                "-m".to_owned(),
                message.clone(),
            ],
            VcsCommand::CurrentBranch => vec![
                "rev-parse".to_owned(),
                "--abbrev-ref".to_owned(),
                "HEAD".to_owned(),
            ],
            VcsCommand::CreateBranch(branch) => vec![
                "checkout".to_owned(),
                "-b".to_owned(),
                branch.clone(),
            ],
            VcsCommand::Push(branch) => vec![
                "push".to_owned(),
                "-u".to_owned(),
                "origin".to_owned(),
                branch.clone(),
            ],
        };
        v
    }
}

/// Calls `String::from_utf8`, which gives the bytes as a string where they are
/// valid UTF-8 and refuses them where they are not.
#[verifier::external_body]
fn string_from_utf8(bytes: Vec<u8>) -> (r: Option<String>)
    ensures
        r is Some <==> valid_utf8(bytes@),
        r matches Some(s) ==> s@ == decode_utf8(bytes@),
{
    match String::from_utf8(bytes) {
        Ok(s) => Some(s),
        Err(_) => None,
    }
}

/// The text that a version-control command handed over: what it wrote, where it
/// could be started, ended with status zero and wrote valid UTF-8.
pub open spec fn output_text(outcome: Result<VcsOutput, String>) -> Option<Seq<char>> {
    match outcome {
        Ok(output) => if output.success && valid_utf8(output.stdout@) {
            Some(decode_utf8(output.stdout@))
        } else {
            None
        },
        Err(_) => None,
    }
}

/// What the failure of a command says that did not do what it was run for:
/// the reason given where it could not be started, else that it ended with a
/// non-zero status.
pub open spec fn status_failure(outcome: Result<VcsOutput, String>) -> Seq<char> {
    match outcome {
        Ok(_) => status_text(),
        Err(detail) => detail@,
    }
}

/// What the failure of a command says whose output could not be read: what
/// [`status_failure`] says, or that the output is not valid UTF-8.
pub open spec fn output_failure(outcome: Result<VcsOutput, String>) -> Seq<char> {
    match outcome {
        Ok(output) => if output.success {
            invalid_output_text()
        } else {
            status_text()
        },
        Err(detail) => detail@,
    }
}

/// Reads the output of a version-control command as text. A command that could
/// not be started or ended with a non-zero status, and output that is not valid
/// UTF-8, are failures of the version-control operation; for a command that
/// could not be started the failure carries the reason given.
pub fn read_output(outcome: Result<VcsOutput, String>) -> (r: Result<String, CommitauraError>)
    ensures
        match output_text(outcome) {
            Some(t) => r matches Ok(s) && s@ == t,
            None => {
                &&& r matches Err(CommitauraError::GitOperationFailed(d))
                &&& d@ == output_failure(outcome)
            },
        },
{
    match outcome {
        Ok(output) => {
            if !output.success {
                return Err(CommitauraError::GitOperationFailed(status_detail()));
            }
            match string_from_utf8(output.stdout) {
                Some(s) => Ok(s),
                None => Err(CommitauraError::GitOperationFailed(invalid_output_detail())),
            }
        },
        Err(detail) => Err(CommitauraError::GitOperationFailed(detail)),
    }
}

/// Decides from the outcome of a version-control command that is run for what
/// it does, not for what it writes, whether it was done: it was when the
/// command ended with status zero.
pub fn check_status(outcome: Result<VcsOutput, String>) -> (r: Result<(), CommitauraError>)
    ensures
        if outcome matches Ok(output) && output.success {
            r is Ok
        } else {
            &&& r matches Err(CommitauraError::GitOperationFailed(d))
            &&& d@ == status_failure(outcome)
        },
{
    match outcome {
        Ok(output) => if output.success {
            Ok(())
        } else {
            Err(CommitauraError::GitOperationFailed(status_detail()))
        },
        Err(detail) => Err(CommitauraError::GitOperationFailed(detail)),
    }
}

/// Decides from the outcome of the quiet staged-diff check whether there is
/// anything to work on: the check ends with status zero exactly when nothing is
/// staged.
pub fn check_staged_changes(outcome: Result<VcsOutput, String>) -> (r: Result<
    (),
    CommitauraError,
>)
    ensures
        match outcome {
            Ok(output) => if output.success {
                r == Err::<(), CommitauraError>(CommitauraError::NoStagedChanges)
            } else {
                r is Ok
            },
            Err(detail) => r matches Err(CommitauraError::GitOperationFailed(d)) && d@ == detail@,
        },
{
    match outcome {
        Ok(output) => if output.success {
            Err(CommitauraError::NoStagedChanges)
        } else {
            Ok(())
        },
        Err(detail) => Err(CommitauraError::GitOperationFailed(detail)),
    }
}

/// Where the extraction of a change set stands: the answer it waits for, and
/// what it has read so far.
#[derive(Debug)]
pub enum Extraction {
    /// Waits for the quiet staged-diff check.
    CheckingStaged,
    /// Waits for the subjects of the last commits.
    ReadingSubjects,
    /// Waits for the names of the staged files.
    ReadingFiles { log: String },
    /// Waits for the staged diff.
    ReadingDiff { log: String, names: String },
    /// Waits for the name of the current branch.
    CheckingBranch,
    /// Waits for the subjects of the commits that a new branch will carry.
    ReadingCommits,
}

/// What one answer brought the extraction to.
#[derive(Debug)]
pub enum Extracted {
    /// Run this command next, and come back with its outcome.
    Ask(Extraction, VcsCommand),
    /// Everything is read.
    Done(ChangeSet),
    /// The extraction ends here.
    Failed(CommitauraError),
}

/// Whether `r` is the failure of a command whose output could not be read.
pub open spec fn unreadable(outcome: Result<VcsOutput, String>, r: Extracted) -> bool {
    &&& r matches Extracted::Failed(CommitauraError::GitOperationFailed(d))
    &&& d@ == output_failure(outcome)
}

/// Whether `name` names a trunk branch, from which feature branches are cut.
pub open spec fn is_trunk(name: Seq<char>) -> bool {
    name == "main"@ || name == "master"@
}

/// Whether `name` names a trunk branch.
pub fn is_trunk_branch(name: &str) -> (b: bool)
    ensures
        b == is_trunk(name@),
{
    let name = name.to_owned();
    name == "main".to_owned() || name == "master".to_owned()
}

/// What a task that needs a trunk branch says when it is on another.
pub open spec fn not_on_trunk_text() -> Seq<char> {
    "the current branch is not a trunk branch"@
}

impl Extraction {
    /// What the extraction comes to when the command it waits for ends with
    /// `outcome`.
    ///
    /// For staged changes it asks in turn for the quiet check, the subjects,
    /// the file names and the diff, and ends at the first command that fails,
    /// at a quiet check that finds nothing staged, and at a diff that holds
    /// nothing but whitespace.
    ///
    /// For a new branch it asks for the current branch, goes on to the
    /// subjects only where that is a trunk branch, and ends with the subjects
    /// as the only content of the change set.
    pub open spec fn advances_to(self, outcome: Result<VcsOutput, String>, r: Extracted) -> bool {
        match self {
            Extraction::CheckingStaged => match outcome {
                Ok(output) => if output.success {
                    r matches Extracted::Failed(e) && e == CommitauraError::NoStagedChanges
                } else {
                    &&& r matches Extracted::Ask(next, command)
                    &&& next is ReadingSubjects
                    &&& command == VcsCommand::RecentSubjects(RECENT_COMMITS)
                },
                Err(detail) => {
                    &&& r matches Extracted::Failed(CommitauraError::GitOperationFailed(d))
                    &&& d@ == detail@
                },
            },
            Extraction::ReadingSubjects => match output_text(outcome) {
                Some(t) => {
                    &&& r matches Extracted::Ask(Extraction::ReadingFiles { log }, command)
                    &&& log@ == t
                    &&& command is StagedFiles
                },
                None => unreadable(outcome, r),
            },
            Extraction::ReadingFiles { log } => match output_text(outcome) {
                Some(t) => {
                    &&& r matches Extracted::Ask(Extraction::ReadingDiff { log: l, names }, command)
                    &&& l@ == log@
                    &&& names@ == t
                    &&& command is StagedDiff
                },
                None => unreadable(outcome, r),
            },
            Extraction::ReadingDiff { log, names } => match output_text(outcome) {
                Some(t) => if is_blank(t) {
                    r matches Extracted::Failed(e) && e == CommitauraError::NoStagedChanges
                } else {
                    &&& r matches Extracted::Done(c)
                    &&& c@.diff == t
                    &&& c@.files == lines_of(names@)
                    &&& c@.recent_subjects == lines_of(log@)
                },
                None => unreadable(outcome, r),
            },
            Extraction::CheckingBranch => match output_text(outcome) {
                Some(t) => if is_trunk(trimmed(t)) {
                    &&& r matches Extracted::Ask(next, command)
                    &&& next is ReadingCommits
                    &&& command == VcsCommand::RecentSubjects(RECENT_COMMITS)
                } else {
                    &&& r matches Extracted::Failed(CommitauraError::GitOperationFailed(d))
                    &&& d@ == not_on_trunk_text()
                },
                None => unreadable(outcome, r),
            },
            Extraction::ReadingCommits => match output_text(outcome) {
                Some(t) => {
                    &&& r matches Extracted::Done(c)
                    &&& c@.diff == Seq::<char>::empty()
                    &&& c@.files == Seq::<Seq<char>>::empty()
                    &&& c@.recent_subjects == lines_of(t)
                },
                None => unreadable(outcome, r),
            },
        }
    }

    /// The first step of the extraction for a task: whether it waits for the
    /// current branch, as a branch and pull request task does before anything
    /// else, or for the quiet staged-diff check.
    pub open spec fn begins(kind: TaskKind, r: (Extraction, VcsCommand)) -> bool {
        match kind {
            TaskKind::BranchAndPr => r.0 is CheckingBranch && r.1 is CurrentBranch,
            _ => r.0 is CheckingStaged && r.1 is StagedQuiet,
        }
    }

    /// Starts the extraction for a task, and says which command to run first.
    pub fn begin(kind: TaskKind) -> (r: (Extraction, VcsCommand))
        ensures
            Extraction::begins(kind, r),
    {
        match kind {
            TaskKind::BranchAndPr => (Extraction::CheckingBranch, VcsCommand::CurrentBranch),
            _ => (Extraction::CheckingStaged, VcsCommand::StagedQuiet),
        }
    }

    /// Takes the outcome of the command that the extraction waits for.
    pub fn advance(self, outcome: Result<VcsOutput, String>) -> (r: Extracted)
        ensures
            self.advances_to(outcome, r),
    {
        match self {
            Extraction::CheckingStaged => match check_staged_changes(outcome) {
                Ok(()) => Extracted::Ask(
                    Extraction::ReadingSubjects,
                    VcsCommand::RecentSubjects(RECENT_COMMITS),
                ),
                Err(e) => Extracted::Failed(e),
            },
            Extraction::ReadingSubjects => match read_output(outcome) {
                Ok(log) => Extracted::Ask(Extraction::ReadingFiles { log }, VcsCommand::StagedFiles),
                Err(e) => Extracted::Failed(e),
            },
            Extraction::ReadingFiles { log } => match read_output(outcome) {
                Ok(names) => Extracted::Ask(
                    Extraction::ReadingDiff { log, names },
                    VcsCommand::StagedDiff,
                ),
                Err(e) => Extracted::Failed(e),
            },
            Extraction::ReadingDiff { log, names } => match read_output(outcome) {
                Ok(diff) => match ChangeSet::from_output(diff, names.as_str(), log.as_str()) {
                    Ok(c) => Extracted::Done(c),
                    Err(e) => Extracted::Failed(e),
                },
                Err(e) => Extracted::Failed(e),
            },
            Extraction::CheckingBranch => match read_output(outcome) {
                Ok(name) => {
                    if is_trunk_branch(trim(name.as_str()).as_str()) {
                        Extracted::Ask(
                            Extraction::ReadingCommits,
                            VcsCommand::RecentSubjects(RECENT_COMMITS),
                        )
                    } else {
                        Extracted::Failed(
                            CommitauraError::GitOperationFailed(
                                "the current branch is not a trunk branch".to_owned(),
                            ),
                        )
                    }
                },
                Err(e) => Extracted::Failed(e),
            },
            Extraction::ReadingCommits => match read_output(outcome) {
                Ok(log) => {
                    let c = ChangeSet {
                        diff: String::new(),
                        files: Vec::new(),
                        recent_subjects: lines(log.as_str()),
                    };
                    assert(c@.files =~= Seq::<Seq<char>>::empty());
                    Extracted::Done(c)
                },
                Err(e) => Extracted::Failed(e),
            },
        }
    }
}

impl ChangeSet {
    /// Puts a change set together from what version control wrote: the staged
    /// diff, the names of the staged files, one to a line, and the subjects of
    /// the last commits, one to a line. A diff that holds nothing but
    /// whitespace means that nothing is staged.
    pub fn from_output(diff: String, names: &str, log: &str) -> (r: Result<
        ChangeSet,
        CommitauraError,
    >)
        ensures
            match r {
                Ok(c) => {
                    &&& !is_blank(diff@)
                    &&& c@.diff == diff@
                    &&& c@.files == lines_of(names@)
                    &&& c@.recent_subjects == lines_of(log@)
                },
                Err(e) => is_blank(diff@) && e == CommitauraError::NoStagedChanges,
            },
    {
        if blank(diff.as_str()) {
            return Err(CommitauraError::NoStagedChanges);
        }
        Ok(ChangeSet { diff, files: lines(names), recent_subjects: lines(log) })
    }
}

/// The lines that show a list of commit subjects to the user: each subject
/// after its number in the list, counted from one, a full stop and a space.
pub open spec fn numbered(subjects: Seq<Seq<char>>) -> Seq<Seq<char>> {
    Seq::new(subjects.len(), |i: int| decimal_of((i + 1) as nat) + ". "@ + subjects[i])
}

/// The lines that show the recent commit messages to the user, from the output
/// of the log command: one numbered line for each line of `commits`.
pub fn display_commit_messages(commits: &str) -> (v: Vec<String>)
    ensures
        texts(v@) == numbered(lines_of(commits@)),
{
    let subjects = lines(commits);
    let mut v: Vec<String> = Vec::new();
    let mut i: usize = 0;
    while i < subjects.len()
        invariant
            i <= subjects.len(),
            texts(subjects@) == lines_of(commits@),
            v.len() == i,
            forall|j: int| 0 <= j < i ==> (#[trigger] v@[j])@ == numbered(lines_of(commits@))[j],
        decreases subjects.len() - i,
    {
        let mut line = decimal(i + 1);
        line.append(". ");
        line.append(subjects[i].as_str());
        v.push(line);
        i = i + 1;
    }
    v
}

/// What the failure of a command says that ended with a non-zero status.
pub open spec fn status_text() -> Seq<char> {
    "the command ended with a non-zero status"@
}

/// What the failure of a command says whose output is not valid UTF-8.
pub open spec fn invalid_output_text() -> Seq<char> {
    "the command's output is not valid UTF-8"@
}

/// The detail of the failure of a command that ended with a non-zero status.
fn status_detail() -> (detail: String)
    ensures
        detail@ == status_text(),
{
    "the command ended with a non-zero status".to_owned()
}

/// The detail of the failure of a command whose output is not valid UTF-8.
fn invalid_output_detail() -> (detail: String)
    ensures
        detail@ == invalid_output_text(),
{
    "the command's output is not valid UTF-8".to_owned()
}

} // verus!
