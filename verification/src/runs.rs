//! Runs of a task: what holds of every sequence of steps, whatever the events.

use crate::changes::VcsCommand;
use crate::error::CommitauraError;
use crate::pipeline::{
    lemma_mutation_needs_confirmation, lemma_request_needs_prompt, steps_to, Action, Applying,
    Event, Phase, Stage, Task,
};
use crate::prompt::TaskKind;
use vstd::prelude::*;

verus! {

/// How far a stage is along the way of a task. The three ways in which a task
/// ends are all as far as a task can get.
pub open spec fn rank(stage: Stage) -> nat {
    match stage {
        Stage::Idle => 0,
        Stage::ExtractingChanges => 1,
        Stage::BudgetingTokens => 2,
        Stage::BuildingPrompt => 3,
        Stage::AwaitingCompletion => 4,
        Stage::Validating => 5,
        Stage::AwaitingConfirmation => 6,
        Stage::Applying => 7,
        Stage::Done => 8,
        Stage::Cancelled => 8,
        Stage::Failed(_) => 8,
    }
}

/// Whether what a task holds goes with its kind: only a README task reads the
/// README or writes it, only a commit task commits, and only a branch and pull
/// request task asks for the current branch or creates and pushes one.
pub open spec fn consistent(task: Task) -> bool {
    match task.phase_of() {
        Phase::ExtractingChanges(extraction) => (task.kind_of() == TaskKind::BranchAndPr) == (
        extraction is CheckingBranch || extraction is ReadingCommits),
        Phase::ReadingReadme(_) => task.kind_of() == TaskKind::ReadmeUpdate,
        Phase::Applying(applying) => match applying {
            Applying::Commit => task.kind_of() == TaskKind::CommitMessage,
            Applying::Readme => task.kind_of() == TaskKind::ReadmeUpdate,
            Applying::CreatingBranch(_) => task.kind_of() == TaskKind::BranchAndPr,
            Applying::Pushing => task.kind_of() == TaskKind::BranchAndPr,
        },
        _ => true,
    }
}

/// A run of a task: the events that came, in order, the task before and after
/// each of them, and what the task asked for in answer to each.
pub struct Run {
    /// The task at the start, and after each event.
    pub tasks: Seq<Task>,
    /// The events, in the order in which they came.
    pub events: Seq<Event>,
    /// What the task asked for in answer to each event.
    pub actions: Seq<Action>,
}

impl Run {
    /// Whether each task of the run comes from the one before it by a step with
    /// the event and the action at that place.
    pub open spec fn valid(self) -> bool {
        &&& self.tasks.len() == self.events.len() + 1
        &&& self.actions.len() == self.events.len()
        &&& forall|i: int|
            #![trigger self.actions[i]]
            0 <= i < self.events.len() ==> steps_to(
                self.tasks[i],
                self.events[i],
                self.tasks[i + 1],
                self.actions[i],
            )
    }

    /// The stage of the task before the event at place `i`.
    pub open spec fn stage_at(self, i: int) -> Stage {
        self.tasks[i].phase_of().stage_of()
    }

    /// The kind of the task of this run.
    pub open spec fn kind(self) -> TaskKind {
        self.tasks[0].kind_of()
    }
}

/// A step never takes a task back: the stage after it is at least as far
/// along as the stage before it.
pub proof fn lemma_step_never_goes_back(before: Task, event: Event, after: Task, action: Action)
    requires
        steps_to(before, event, after, action),
    ensures
        rank(before.phase_of().stage_of()) <= rank(after.phase_of().stage_of()),
{
}

/// A step keeps the kind of a task, and keeps what the task holds in line with
/// its kind.
pub proof fn lemma_step_keeps_consistent(before: Task, event: Event, after: Task, action: Action)
    requires
        steps_to(before, event, after, action),
        consistent(before),
    ensures
        after.kind_of() == before.kind_of(),
        consistent(after),
{
}

/// Along a run a task only ever moves forward.
pub proof fn lemma_run_never_goes_back(run: Run, i: int, j: int)
    requires
        run.valid(),
        0 <= i <= j < run.tasks.len(),
    ensures
        rank(run.stage_at(i)) <= rank(run.stage_at(j)),
    decreases j - i,
{
    if i < j {
        lemma_run_never_goes_back(run, i, j - 1);
        assert(steps_to(run.tasks[j - 1], run.events[j - 1], run.tasks[j], run.actions[j - 1]));
        lemma_step_never_goes_back(
            run.tasks[j - 1],
            run.events[j - 1],
            run.tasks[j],
            run.actions[j - 1],
        );
    }
}

/// Along a run that starts with a task in line with its kind, the task keeps
/// its kind and stays in line with it.
pub proof fn lemma_run_keeps_consistent(run: Run, j: int)
    requires
        run.valid(),
        consistent(run.tasks[0]),
        0 <= j < run.tasks.len(),
    ensures
        run.tasks[j].kind_of() == run.kind(),
        consistent(run.tasks[j]),
    decreases j,
{
    if 0 < j {
        lemma_run_keeps_consistent(run, j - 1);
        assert(steps_to(run.tasks[j - 1], run.events[j - 1], run.tasks[j], run.actions[j - 1]));
        lemma_step_keeps_consistent(
            run.tasks[j - 1],
            run.events[j - 1],
            run.tasks[j],
            run.actions[j - 1],
        );
    }
}

/// The model is asked at most once in a run: there is no second request,
/// whatever comes of the first.
pub proof fn lemma_one_request_per_run(run: Run, i: int, j: int)
    requires
        run.valid(),
        0 <= i < j < run.actions.len(),
        run.actions[i] is RequestCompletion,
    ensures
        !(run.actions[j] is RequestCompletion),
{
    lemma_request_needs_prompt(run.tasks[i], run.events[i], run.tasks[i + 1], run.actions[i]);
    lemma_run_never_goes_back(run, i + 1, j);
    if run.actions[j] is RequestCompletion {
        lemma_request_needs_prompt(run.tasks[j], run.events[j], run.tasks[j + 1], run.actions[j]);
    }
}

/// A commit task commits at most once in a run, and a README task writes the
/// README at most once: once an action has changed the repository, no second
/// one follows.
pub proof fn lemma_one_mutation_per_run(run: Run, i: int, j: int)
    requires
        run.valid(),
        consistent(run.tasks[0]),
        run.kind() != TaskKind::BranchAndPr,
        0 <= i < j < run.actions.len(),
        run.actions[i].mutates(),
    ensures
        !run.actions[j].mutates(),
{
    lemma_mutation_needs_confirmation(
        run.tasks[i],
        run.events[i],
        run.tasks[i + 1],
        run.actions[i],
    );
    lemma_run_never_goes_back(run, i + 1, j);
    lemma_run_keeps_consistent(run, j);
    if run.actions[j].mutates() {
        lemma_mutation_needs_confirmation(
            run.tasks[j],
            run.events[j],
            run.tasks[j + 1],
            run.actions[j],
        );
    }
}

/// What an accepted commit message leads to: the commit of exactly that
/// message.
pub proof fn lemma_accepted_message_is_committed(
    before: Task,
    proposal: String,
    after: Task,
    action: Action,
)
    requires
        steps_to(before, Event::Confirmation(true), after, action),
        before.kind_of() == TaskKind::CommitMessage,
        before.phase_of() == Phase::AwaitingConfirmation(proposal),
    ensures
        action matches Action::RunVcs(VcsCommand::Commit(message)) && message@ == proposal@,
{
}

/// A task that ends before its prompt is built never asks the model: where a
/// step ends a run's task that has not yet reached the stage in which it waits
/// for the model, no action of the run is a request, before that step or after
/// it. So it is with a budget that the fixed parts of the prompt exceed.
pub proof fn lemma_early_end_means_no_request(run: Run, k: int, j: int)
    requires
        run.valid(),
        0 <= k < run.actions.len(),
        0 <= j < run.actions.len(),
        rank(run.stage_at(k)) < rank(Stage::AwaitingCompletion),
        run.tasks[k + 1].phase_of().ended(),
    ensures
        !(run.actions[j] is RequestCompletion),
{
    if run.actions[j] is RequestCompletion {
        lemma_request_needs_prompt(run.tasks[j], run.events[j], run.tasks[j + 1], run.actions[j]);
        if j < k {
            lemma_run_never_goes_back(run, j + 1, k);
        } else if j > k {
            lemma_run_never_goes_back(run, k + 1, j);
        }
    }
}

/// A task that ends before it begins to apply its proposal never touches the
/// repository: where a step ends a run's task that is not yet applying, no
/// action of the run changes the repository, before that step or after it. So
/// it is with a proposal that the user declines.
pub proof fn lemma_early_end_means_no_mutation(run: Run, k: int, j: int)
    requires
        run.valid(),
        0 <= k < run.actions.len(),
        0 <= j < run.actions.len(),
        rank(run.stage_at(k)) < rank(Stage::Applying),
        run.tasks[k + 1].phase_of().ended(),
    ensures
        !run.actions[j].mutates(),
{
    if run.actions[j].mutates() {
        lemma_mutation_needs_confirmation(
            run.tasks[j],
            run.events[j],
            run.tasks[j + 1],
            run.actions[j],
        );
        if j < k {
            lemma_run_never_goes_back(run, j + 1, k);
        } else if j > k {
            lemma_run_never_goes_back(run, k + 1, j + 1);
        }
    }
}

/// A task that finds nothing staged never asks the model: where a step of the
/// task itself ends a run's task with `NoStagedChanges`, no action of the run
/// is a request, before that step or after it.
pub proof fn lemma_nothing_staged_means_no_request(run: Run, k: int, j: int)
    requires
        run.valid(),
        0 <= k < run.actions.len(),
        0 <= j < run.actions.len(),
        !run.tasks[k].phase_of().ended(),
        !(run.events[k] is Failure),
        run.tasks[k + 1].phase_of() == Phase::Failed(CommitauraError::NoStagedChanges),
    ensures
        !(run.actions[j] is RequestCompletion),
{
    assert(steps_to(run.tasks[k], run.events[k], run.tasks[k + 1], run.actions[k]));
    assert(run.stage_at(k) == Stage::ExtractingChanges);
    lemma_early_end_means_no_request(run, k, j);
}

/// A task whose answer is empty never touches the repository: where the
/// validating step ends a run's task with `EmptyCompletion`, no action of the
/// run changes the repository, before that step or after it.
pub proof fn lemma_empty_completion_means_no_mutation(run: Run, k: int, j: int)
    requires
        run.valid(),
        0 <= k < run.actions.len(),
        0 <= j < run.actions.len(),
        !run.tasks[k].phase_of().ended(),
        !(run.events[k] is Failure),
        run.tasks[k + 1].phase_of() == Phase::Failed(CommitauraError::EmptyCompletion),
    ensures
        !run.actions[j].mutates(),
{
    assert(steps_to(run.tasks[k], run.events[k], run.tasks[k + 1], run.actions[k]));
    assert(run.stage_at(k) == Stage::Validating);
    lemma_early_end_means_no_mutation(run, k, j);
}

} // verus!
