//! The orchestrator: two tasks in a row, a commit and then a README update,
//! each with its own outcome.

use crate::pipeline::{lemma_finished_iff_ended, steps_to, Action, Event, Outcome, Task};
use crate::prompt::TaskKind;
use crate::tokens::Tokenizer;
use vstd::prelude::*;

verus! {

/// How the two tasks of a chain ended.
#[derive(Debug)]
pub struct Report {
    /// How the commit task ended.
    pub commit: Outcome,
    /// How the README task ended.
    pub readme: Outcome,
}

impl Report {
    /// The exit status that the report calls for: zero unless one of the tasks
    /// failed.
    pub open spec fn exit_status(self) -> u8 {
        if self.commit is Failed || self.readme is Failed {
            1
        } else {
            0
        }
    }

    /// The exit status that the report calls for.
    pub fn exit_code(&self) -> (code: u8)
        ensures
            code == self.exit_status(),
    {
        if self.commit.exit_code() != 0 || self.readme.exit_code() != 0 {
            1
        } else {
            0
        }
    }
}

/// A commit task followed by a README task. The README task is run whatever
/// came of the commit task, and starts from scratch: it reads the changes
/// again.
#[derive(Debug)]
pub struct Chain {
    commit: Task,
    readme: Task,
}

/// What one step makes of a chain. While the commit task runs, the event goes
/// to it; with the step that ends it, done, cancelled or failed, the README
/// task starts, and what it asks for first is the answer. Once the commit task
/// has ended, the event goes to the README task.
pub open spec fn chain_steps_to(before: Chain, event: Event, after: Chain, action: Action) -> bool {
    if before.commit_of().phase_of().ended() {
        &&& after.commit_of() == before.commit_of()
        &&& steps_to(before.readme_of(), event, after.readme_of(), action)
    } else {
        exists|first: Action| #[trigger]
            steps_to(before.commit_of(), event, after.commit_of(), first) && if first is Finished {
                steps_to(before.readme_of(), Event::Start, after.readme_of(), action)
            } else {
                after.readme_of() == before.readme_of() && action == first
            }
    }
}

impl Chain {
    /// The commit task.
    pub closed spec fn commit_of(self) -> Task {
        self.commit
    }

    /// The README task.
    pub closed spec fn readme_of(self) -> Task {
        self.readme
    }

    /// A chain of which neither task has started.
    pub fn new() -> (chain: Chain)
        ensures
            chain.commit_of().kind_of() == TaskKind::CommitMessage,
            chain.commit_of().phase_of() is Idle,
            chain.readme_of().kind_of() == TaskKind::ReadmeUpdate,
            chain.readme_of().phase_of() is Idle,
    {
        Chain { commit: Task::new(TaskKind::CommitMessage), readme: Task::new(TaskKind::ReadmeUpdate) }
    }

    /// The commit task.
    pub fn commit(&self) -> (task: &Task)
        ensures
            *task == self.commit_of(),
    {
        &self.commit
    }

    /// The README task.
    pub fn readme(&self) -> (task: &Task)
        ensures
            *task == self.readme_of(),
    {
        &self.readme
    }

    /// Takes an event and says what to do next.
    pub fn step(self, tokenizer: &Tokenizer, event: Event) -> (r: (Chain, Action))
        ensures
            chain_steps_to(self, event, r.0, r.1),
    {
        let Chain { commit, readme } = self;
        if commit.has_ended() {
            let (readme, action) = readme.step(tokenizer, event);
            (Chain { commit, readme }, action)
        } else {
            let (commit, first) = commit.step(tokenizer, event);
            match first {
                Action::Finished => {
                    let (readme, action) = readme.step(tokenizer, Event::Start);
                    let after = Chain { commit, readme };
                    assert(steps_to(self.commit_of(), event, after.commit_of(), Action::Finished));
                    (after, action)
                },
                _ => {
                    let after = Chain { commit, readme };
                    assert(steps_to(self.commit_of(), event, after.commit_of(), first));
                    (after, first)
                },
            }
        }
    }

    /// How the two tasks ended; `None` while one of them runs.
    pub fn finish(self) -> (report: Option<Report>)
        ensures
            match report {
                Some(r) => {
                    &&& Outcome::of_phase(self.commit_of().phase_of()) == Some(r.commit)
                    &&& Outcome::of_phase(self.readme_of().phase_of()) == Some(r.readme)
                },
                None => !self.commit_of().phase_of().ended() || !self.readme_of().phase_of().ended(),
            },
    {
        let Chain { commit, readme } = self;
        match commit.finish() {
            Some(c) => match readme.finish() {
                Some(r) => Some(Report { commit: c, readme: r }),
                None => None,
            },
            None => None,
        }
    }
}

/// The README task is attempted whatever came of the commit task: with the
/// step that ends the commit task, a README task that has not started leaves
/// its idle phase and asks for its first command.
pub proof fn lemma_both_attempted(before: Chain, event: Event, after: Chain, action: Action)
    requires
        chain_steps_to(before, event, after, action),
        !before.commit_of().phase_of().ended(),
        after.commit_of().phase_of().ended(),
        before.readme_of().phase_of() is Idle,
    ensures
        after.readme_of().phase_of() is ExtractingChanges,
        action is RunVcs,
{
    let first = choose|first: Action| #[trigger]
        steps_to(before.commit_of(), event, after.commit_of(), first) && if first is Finished {
            steps_to(before.readme_of(), Event::Start, after.readme_of(), action)
        } else {
            after.readme_of() == before.readme_of() && action == first
        };
    lemma_finished_iff_ended(before.commit_of(), event, after.commit_of(), first);
}

/// A chain says that it has ended only when both of its tasks have.
pub proof fn lemma_chain_finished(before: Chain, event: Event, after: Chain, action: Action)
    requires
        chain_steps_to(before, event, after, action),
        action is Finished,
    ensures
        after.commit_of().phase_of().ended(),
        after.readme_of().phase_of().ended(),
{
    if before.commit_of().phase_of().ended() {
        lemma_finished_iff_ended(
            before.readme_of(),
            event,
            after.readme_of(),
            action,
        );
    } else {
        let first = choose|first: Action| #[trigger]
            steps_to(before.commit_of(), event, after.commit_of(), first) && if first is Finished {
                steps_to(before.readme_of(), Event::Start, after.readme_of(), action)
            } else {
                after.readme_of() == before.readme_of() && action == first
            };
        lemma_finished_iff_ended(
            before.commit_of(),
            event,
            after.commit_of(),
            first,
        );
        if first is Finished {
            lemma_finished_iff_ended(
                before.readme_of(),
                Event::Start,
                after.readme_of(),
                action,
            );
        }
    }
}

} // verus!
