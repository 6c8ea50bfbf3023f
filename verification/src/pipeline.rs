//! The pipeline of one task: from the staged changes to a proposal, and from
//! the user's word to the repository.
//!
//! A [`Task`] does nothing by itself. Each call of [`Task::step`] takes what
//! happened outside (an [`Event`]) and answers with what to do next (an
//! [`Action`]); whoever runs the task performs the action and comes back with
//! the event that it brought. The tokenizer is set up once, before any task
//! starts, and lent to each step.

use crate::apply::{
    branch_name, branch_name_of, commit_failure, merged, perform_git_commit, select_from,
    selection_text, ReadmeDocument,
};
use crate::changes::{
    check_status, status_failure, ChangeSet, ChangeSetView, Extracted, Extraction, VcsCommand,
    VcsOutput,
};
use crate::completion::{
    completion_failure, first_choice, model_text, read_completion, sampling_of,
    validate_completion, CompletionRequest,
};
use crate::error::{CommitauraError, ErrorKind};
use crate::prompt::{
    context_text, instructions_text, system_message, system_text, task_instructions,
    variable_context, PromptSpec, TaskKind,
};
use crate::text::trimmed;
use crate::tokens::{
    fitted, fixed_cost_text, long_run_text, token_count, tokenizable, Fitted, TokenBudget,
    Tokenizer, MAX_TOKENS,
};
use vstd::prelude::*;

verus! {

/// What the parts of a prompt that are never cut cost: the system message and
/// the task's instructions.
pub open spec fn fixed_cost(kind: TaskKind, changes: ChangeSetView) -> nat {
    token_count(system_text(kind)) + token_count(instructions_text(kind, changes))
}

/// Whether the fixed parts of a prompt can be tokenized and leave room in the
/// model's context.
pub open spec fn fixed_parts_fit(kind: TaskKind, changes: ChangeSetView) -> bool {
    &&& tokenizable(system_text(kind))
    &&& tokenizable(instructions_text(kind, changes))
    &&& fixed_cost(kind, changes) <= MAX_TOKENS
}

/// The context of a prompt after budgeting: the task's context, fitted into
/// what the fixed parts leave of the model's context. `None` where the fixed
/// parts alone do not fit, or the context cannot be fitted.
pub open spec fn budgeted(kind: TaskKind, changes: ChangeSetView, readme: Seq<char>) -> Option<
    Seq<char>,
> {
    if fixed_parts_fit(kind, changes) {
        fitted(
            context_text(kind, changes, readme),
            (MAX_TOKENS - fixed_cost(kind, changes)) as nat,
        )
    } else {
        None
    }
}

/// Whether budgeting cuts the context of a prompt.
pub open spec fn cut_by_budget(kind: TaskKind, changes: ChangeSetView, readme: Seq<char>) -> bool {
    token_count(context_text(kind, changes, readme)) > MAX_TOKENS - fixed_cost(kind, changes)
}

/// Whether the context of a prompt can be budgeted: the fixed parts fit, and
/// the tokenizer can take the context.
pub open spec fn can_budget(kind: TaskKind, changes: ChangeSetView, readme: Seq<char>) -> bool {
    fixed_parts_fit(kind, changes) && tokenizable(context_text(kind, changes, readme))
}

/// What the failure of budgeting says: that the tokenizer cannot take a fixed
/// part of the prompt, or that the fixed parts alone cost more than the model
/// takes, or else that the tokenizer cannot take the context.
pub open spec fn budget_failure(kind: TaskKind, changes: ChangeSetView, readme: Seq<char>) -> Seq<
    char,
> {
    if !tokenizable(system_text(kind)) || !tokenizable(instructions_text(kind, changes)) {
        long_run_text()
    } else if fixed_cost(kind, changes) > MAX_TOKENS {
        fixed_cost_text()
    } else {
        long_run_text()
    }
}

/// Fits the context of a task into what the fixed parts of its prompt leave of
/// the model's context, and says whether it had to be cut. Fails where the
/// fixed parts alone exceed the model's context, and where the tokenizer cannot
/// take a part of the prompt; it succeeds on everything else.
pub fn budget_context(tokenizer: &Tokenizer, kind: TaskKind, changes: &ChangeSet, readme: &str) -> (r:
    Result<Fitted, CommitauraError>)
    ensures
        match r {
            Ok(f) => {
                &&& budgeted(kind, changes@, readme@) == Some(f.text@)
                &&& f.truncated == cut_by_budget(kind, changes@, readme@)
                &&& f.text@.is_prefix_of(context_text(kind, changes@, readme@))
            },
            Err(e) => {
                &&& budgeted(kind, changes@, readme@) is None
                &&& e matches CommitauraError::TokenizationFailed(d)
                &&& d@ == budget_failure(kind, changes@, readme@)
            },
        },
        r is Ok <==> can_budget(kind, changes@, readme@),
{
    let system = system_message(kind);
    let system_cost = match tokenizer.estimate(system.as_str()) {
        Ok(n) => n,
        Err(e) => {
            return Err(e);
        },
    };
    let instructions = task_instructions(kind, changes);
    let instruction_cost = match tokenizer.estimate(instructions.as_str()) {
        Ok(n) => n,
        Err(e) => {
            return Err(e);
        },
    };
    let budget = match TokenBudget::new(MAX_TOKENS, system_cost, instruction_cost) {
        Ok(b) => b,
        Err(e) => {
            return Err(e);
        },
    };
    let context = variable_context(kind, changes, readme);
    tokenizer.fit(context.as_str(), budget.available())
}

/// Whether `request` is the request of a task of this kind for these changes,
/// with `context` as the part of the prompt that follows the instructions.
pub open spec fn request_for(
    request: CompletionRequest,
    kind: TaskKind,
    changes: ChangeSetView,
    context: Seq<char>,
) -> bool {
    &&& request.model@ == model_text()
    &&& request.sampling == sampling_of(kind)
    &&& request.stop@.len() == 0
    &&& request.prompt.system_of() == system_text(kind)
    &&& request.prompt.user_of() == instructions_text(kind, changes) + context
}

/// The stages that a task goes through, and the three ways in which it ends.
#[derive(Clone, Copy, Debug, PartialEq, Eq, Structural)]
pub enum Stage {
    Idle,
    ExtractingChanges,
    BudgetingTokens,
    BuildingPrompt,
    AwaitingCompletion,
    Validating,
    AwaitingConfirmation,
    Applying,
    /// The proposal was applied.
    Done,
    /// The user declined the proposal: nothing was applied, and nothing failed.
    Cancelled,
    /// The task failed, for this kind of reason.
    Failed(ErrorKind),
}

/// What a task that applies its proposal waits for.
#[derive(Debug)]
pub enum Applying {
    /// The outcome of the commit.
    Commit,
    /// The outcome of writing the README.
    Readme,
    /// The outcome of creating the branch of this name.
    CreatingBranch(String),
    /// The outcome of pushing the new branch.
    Pushing,
}

/// Where a task stands, with what it holds there.
#[derive(Debug)]
pub enum Phase {
    /// Not started.
    Idle,
    /// Waits for the outcome of a version-control command.
    ExtractingChanges(Extraction),
    /// The changes are read; waits for the content of the README.
    ReadingReadme(ChangeSet),
    /// The changes are read; the budget is worked out next.
    BudgetingTokens(ChangeSet),
    /// The context is fitted; the prompt is built next.
    BuildingPrompt { changes: ChangeSet, context: String, truncated: bool },
    /// Waits for the model's answer.
    AwaitingCompletion,
    /// The answer is here; it is checked next.
    Validating(String),
    /// Waits for the user's word on the proposal.
    AwaitingConfirmation(String),
    /// Waits for the outcome of what applies the proposal.
    Applying(Applying),
    /// The proposal was applied.
    Done,
    /// The user declined.
    Cancelled,
    /// The task failed.
    Failed(CommitauraError),
}

impl Phase {
    /// The stage that this phase belongs to.
    pub open spec fn stage_of(self) -> Stage {
        match self {
            Phase::Idle => Stage::Idle,
            Phase::ExtractingChanges(_) => Stage::ExtractingChanges,
            Phase::ReadingReadme(_) => Stage::ExtractingChanges,
            Phase::BudgetingTokens(_) => Stage::BudgetingTokens,
            Phase::BuildingPrompt { .. } => Stage::BuildingPrompt,
            Phase::AwaitingCompletion => Stage::AwaitingCompletion,
            Phase::Validating(_) => Stage::Validating,
            Phase::AwaitingConfirmation(_) => Stage::AwaitingConfirmation,
            Phase::Applying(_) => Stage::Applying,
            Phase::Done => Stage::Done,
            Phase::Cancelled => Stage::Cancelled,
            Phase::Failed(e) => Stage::Failed(e.kind_of()),
        }
    }

    /// Whether a task in this phase has ended.
    pub open spec fn ended(self) -> bool {
        self is Done || self is Cancelled || self is Failed
    }
}

/// What happened outside the task.
#[derive(Debug)]
pub enum Event {
    /// The task is to begin.
    Start,
    /// The task is to go on with the work it can do by itself.
    Resume,
    /// A version-control command ended, or could not be started for the reason
    /// given.
    Vcs(Result<VcsOutput, String>),
    /// The README was read: its content, `None` where there is no README; or
    /// why it could not be read.
    ReadmeRead(Result<Option<String>, String>),
    /// The model provider answered: the message content of each choice, `None`
    /// for a choice without a message; or why the request failed.
    Completion(Result<Vec<Option<String>>, String>),
    /// The user accepted the proposal (`true`) or declined it.
    Confirmation(bool),
    /// The user picked these lines of the proposal, by index from zero.
    Selection(Vec<usize>),
    /// The README was written, or could not be for the reason given.
    ReadmeWritten(Result<(), String>),
    /// What the task asked for could not be done, for a reason that no other
    /// event tells: the task is to fail with it.
    Failure(CommitauraError),
}

/// What the task asks for next.
#[derive(Debug)]
pub enum Action {
    /// Run this version-control command; come back with [`Event::Vcs`].
    RunVcs(VcsCommand),
    /// Read the README; come back with [`Event::ReadmeRead`].
    ReadReadme,
    /// Nothing is needed from outside; come back with [`Event::Resume`].
    Continue,
    /// Send this request to the model, once; come back with
    /// [`Event::Completion`]. `truncated` says that the context of the prompt
    /// was cut to fit the model's context.
    RequestCompletion { request: CompletionRequest, truncated: bool },
    /// Show this proposal to the user and ask whether to apply it; come back
    /// with [`Event::Confirmation`], or with [`Event::Selection`] where the
    /// user picks lines of a README proposal.
    AskConfirmation(String),
    /// Replace the README by this content; come back with
    /// [`Event::ReadmeWritten`].
    WriteReadme(String),
    /// The task has ended.
    Finished,
    /// The event is not one that the task waits for; the task has not moved.
    Rejected,
}

impl Action {
    /// Whether performing this action changes the repository.
    pub open spec fn mutates(self) -> bool {
        ||| self matches Action::RunVcs(command) && (command is Commit || command is CreateBranch
            || command is Push)
        ||| self is WriteReadme
    }
}

/// One task: what the model is asked to write, the README as far as it was
/// read, and the phase that the task is in.
#[derive(Debug)]
pub struct Task {
    kind: TaskKind,
    readme: String,
    phase: Phase,
}

/// Whether the event was rejected: the task has not moved.
pub open spec fn rejected(before: Task, after: Task, action: Action) -> bool {
    after == before && action is Rejected
}

/// Whether the task kept its kind and its README.
pub open spec fn same_task(before: Task, after: Task) -> bool {
    after.kind_of() == before.kind_of() && after.readme_of() == before.readme_of()
}

/// Whether the task moved to `phase`, with kind and README as they were.
pub open spec fn moved_to(before: Task, after: Task, phase: Phase) -> bool {
    same_task(before, after) && after.phase_of() == phase
}

/// Whether the task ended in failure `e`.
pub open spec fn failed_with(before: Task, after: Task, action: Action, e: CommitauraError) -> bool {
    moved_to(before, after, Phase::Failed(e)) && action is Finished
}

/// Whether the task ended in a failure of the version-control operation that
/// says `detail`.
pub open spec fn failed_on_vcs(before: Task, detail: Seq<char>, after: Task, action: Action) -> bool {
    &&& same_task(before, after)
    &&& after.phase_of() matches Phase::Failed(CommitauraError::GitOperationFailed(d))
    &&& d@ == detail
    &&& action is Finished
}

/// Whether a version-control command was started and ended with status zero.
pub open spec fn succeeded(outcome: Result<VcsOutput, String>) -> bool {
    outcome matches Ok(output) && output.success
}

/// The first step of a task: the extraction begins, with the command that the
/// kind of the task calls for first.
pub open spec fn follows_start(before: Task, after: Task, action: Action) -> bool {
    &&& same_task(before, after)
    &&& after.phase_of() matches Phase::ExtractingChanges(extraction)
    &&& action matches Action::RunVcs(command)
    &&& Extraction::begins(before.kind_of(), (extraction, command))
}

/// The step of a task that waits for an extraction, once the extraction has
/// come to `r`: the task asks for what the extraction asks for; when the
/// changes are read, a README task asks for the README and any other goes on
/// to budgeting; a failed extraction fails the task.
pub open spec fn follows_extraction(before: Task, r: Extracted, after: Task, action: Action) -> bool {
    match r {
        Extracted::Ask(next, command) => {
            &&& moved_to(before, after, Phase::ExtractingChanges(next))
            &&& action == Action::RunVcs(command)
        },
        Extracted::Done(changes) => match before.kind_of() {
            TaskKind::ReadmeUpdate => {
                &&& moved_to(before, after, Phase::ReadingReadme(changes))
                &&& action is ReadReadme
            },
            _ => {
                &&& moved_to(before, after, Phase::BudgetingTokens(changes))
                &&& action is Continue
            },
        },
        Extracted::Failed(e) => failed_with(before, after, action, e),
    }
}

/// The step of a task that waits for the README: its content becomes the
/// task's README, empty where there is none, and budgeting is next; a README
/// that cannot be read fails the task.
pub open spec fn follows_readme(
    before: Task,
    changes: ChangeSet,
    read: Result<Option<String>, String>,
    after: Task,
    action: Action,
) -> bool {
    match read {
        Ok(content) => {
            &&& after.kind_of() == before.kind_of()
            &&& after.phase_of() == Phase::BudgetingTokens(changes)
            &&& after.readme_of() == match content {
                Some(text) => text@,
                None => Seq::<char>::empty(),
            }
            &&& action is Continue
        },
        Err(detail) => {
            &&& same_task(before, after)
            &&& after.phase_of() matches Phase::Failed(CommitauraError::IoFailure(d))
            &&& d@ == detail@
            &&& action is Finished
        },
    }
}

/// The budgeting step. Where the fixed parts of the prompt fit and the
/// tokenizer can take the context, the context is fitted into what the fixed
/// parts leave, which drops nothing but its end, and the prompt is built
/// next. Where not, the task fails and says which of the two it was.
pub open spec fn follows_budgeting(before: Task, changes: ChangeSet, after: Task, action: Action) -> bool {
    let kind = before.kind_of();
    let readme = before.readme_of();
    &&& same_task(before, after)
    &&& if can_budget(kind, changes@, readme) {
        &&& after.phase_of() matches Phase::BuildingPrompt { changes: c, context, truncated }
        &&& c == changes
        &&& budgeted(kind, changes@, readme) == Some(context@)
        &&& context@.is_prefix_of(context_text(kind, changes@, readme))
        &&& truncated == cut_by_budget(kind, changes@, readme)
        &&& action is Continue
    } else {
        &&& after.phase_of() matches Phase::Failed(CommitauraError::TokenizationFailed(d))
        &&& d@ == budget_failure(kind, changes@, readme)
        &&& action is Finished
    }
}

/// The prompt building step: the request of the task is handed out, and the
/// task waits for the answer.
pub open spec fn follows_prompt(
    before: Task,
    changes: ChangeSet,
    context: String,
    truncated: bool,
    after: Task,
    action: Action,
) -> bool {
    &&& moved_to(before, after, Phase::AwaitingCompletion)
    &&& action matches Action::RequestCompletion { request, truncated: t }
    &&& request_for(request, before.kind_of(), changes@, context@)
    &&& t == truncated
}

/// The step of a task that waits for the model: the content of the first
/// choice is checked next; an answer without one fails the task, with the
/// reason given where the request itself failed.
pub open spec fn follows_completion(
    before: Task,
    answer: Result<Vec<Option<String>>, String>,
    after: Task,
    action: Action,
) -> bool {
    &&& same_task(before, after)
    &&& match first_choice(answer) {
        Some(text) => {
            &&& after.phase_of() matches Phase::Validating(raw)
            &&& raw@ == text
            &&& action is Continue
        },
        None => {
            &&& after.phase_of() matches Phase::Failed(CommitauraError::CompletionFailed(d))
            &&& d@ == completion_failure(answer)
            &&& action is Finished
        },
    }
}

/// The validating step: an answer that holds nothing but whitespace fails the
/// task; any other becomes the proposal, without the whitespace around it,
/// and is shown to the user.
pub open spec fn follows_validation(before: Task, raw: String, after: Task, action: Action) -> bool {
    if trimmed(raw@).len() == 0 {
        failed_with(before, after, action, CommitauraError::EmptyCompletion)
    } else {
        &&& same_task(before, after)
        &&& after.phase_of() matches Phase::AwaitingConfirmation(proposal)
        &&& proposal@ == trimmed(raw@)
        &&& action matches Action::AskConfirmation(shown)
        &&& shown@ == proposal@
    }
}

/// What applies `update` for a task: a commit with `update` as its message;
/// the README with `update` added; or a new branch named by the first line of
/// `update`, which is pushed once it is created.
pub open spec fn applies(before: Task, update: Seq<char>, after: Task, action: Action) -> bool {
    &&& same_task(before, after)
    &&& match before.kind_of() {
        TaskKind::CommitMessage => {
            &&& after.phase_of() == Phase::Applying(Applying::Commit)
            &&& action matches Action::RunVcs(VcsCommand::Commit(message))
            &&& message@ == update
        },
        TaskKind::ReadmeUpdate => {
            &&& after.phase_of() == Phase::Applying(Applying::Readme)
            &&& action matches Action::WriteReadme(content)
            &&& content@ == merged(before.readme_of(), update)
        },
        TaskKind::BranchAndPr => {
            &&& after.phase_of() matches Phase::Applying(Applying::CreatingBranch(name))
            &&& name@ == branch_name_of(update)
            &&& action matches Action::RunVcs(VcsCommand::CreateBranch(branch))
            &&& branch@ == branch_name_of(update)
        },
    }
}

/// Whether the task ended as cancelled.
pub open spec fn cancelled(before: Task, after: Task, action: Action) -> bool {
    moved_to(before, after, Phase::Cancelled) && action is Finished
}

/// The step of a task that waits for the user. An accepted proposal is
/// applied. A declined one cancels the task. Lines picked from a README
/// proposal are applied in place of the whole proposal, and cancel the task
/// where they come to nothing; no other proposal has lines to pick from.
pub open spec fn follows_confirmation(
    before: Task,
    proposal: String,
    event: Event,
    after: Task,
    action: Action,
) -> bool {
    match event {
        Event::Confirmation(accepted) => if accepted {
            applies(before, proposal@, after, action)
        } else {
            cancelled(before, after, action)
        },
        Event::Selection(selection) => match before.kind_of() {
            TaskKind::ReadmeUpdate => {
                let update = selection_text(proposal@, selection@);
                if update.len() == 0 {
                    cancelled(before, after, action)
                } else {
                    applies(before, update, after, action)
                }
            },
            _ => rejected(before, after, action),
        },
        _ => rejected(before, after, action),
    }
}

/// Whether the task is done.
pub open spec fn done(before: Task, after: Task, action: Action) -> bool {
    moved_to(before, after, Phase::Done) && action is Finished
}

/// The step of a task that waits for its proposal to be applied. The task is
/// done when the commit was made, the README written, or the new branch
/// pushed; a branch that was created is pushed next; whatever fails, fails
/// the task.
pub open spec fn follows_applying(
    before: Task,
    applying: Applying,
    event: Event,
    after: Task,
    action: Action,
) -> bool {
    match applying {
        Applying::Commit => match event {
            Event::Vcs(outcome) => if succeeded(outcome) {
                done(before, after, action)
            } else {
                failed_on_vcs(before, commit_failure(outcome), after, action)
            },
            _ => rejected(before, after, action),
        },
        Applying::Readme => match event {
            Event::ReadmeWritten(written) => match written {
                Ok(_) => done(before, after, action),
                Err(detail) => {
                    &&& same_task(before, after)
                    &&& after.phase_of() matches Phase::Failed(CommitauraError::IoFailure(d))
                    &&& d@ == detail@
                    &&& action is Finished
                },
            },
            _ => rejected(before, after, action),
        },
        Applying::CreatingBranch(name) => match event {
            Event::Vcs(outcome) => if succeeded(outcome) {
                &&& moved_to(before, after, Phase::Applying(Applying::Pushing))
                &&& action == Action::RunVcs(VcsCommand::Push(name))
            } else {
                failed_on_vcs(before, status_failure(outcome), after, action)
            },
            _ => rejected(before, after, action),
        },
        Applying::Pushing => match event {
            Event::Vcs(outcome) => if succeeded(outcome) {
                done(before, after, action)
            } else {
                failed_on_vcs(before, status_failure(outcome), after, action)
            },
            _ => rejected(before, after, action),
        },
    }
}

/// What one step makes of a task that no failure from outside interrupts: for
/// each phase, the event that it waits for and what follows from it. A task
/// that has ended stays as it is whatever comes. Any other event is rejected.
pub open spec fn proceeds_to(before: Task, event: Event, after: Task, action: Action) -> bool {
    match before.phase_of() {
        Phase::Idle => match event {
            Event::Start => follows_start(before, after, action),
            _ => rejected(before, after, action),
        },
        Phase::ExtractingChanges(extraction) => match event {
            Event::Vcs(outcome) => exists|r: Extracted| #[trigger]
                extraction.advances_to(outcome, r) && follows_extraction(before, r, after, action),
            _ => rejected(before, after, action),
        },
        Phase::ReadingReadme(changes) => match event {
            Event::ReadmeRead(read) => follows_readme(before, changes, read, after, action),
            _ => rejected(before, after, action),
        },
        Phase::BudgetingTokens(changes) => match event {
            Event::Resume => follows_budgeting(before, changes, after, action),
            _ => rejected(before, after, action),
        },
        Phase::BuildingPrompt { changes, context, truncated } => match event {
            Event::Resume => follows_prompt(before, changes, context, truncated, after, action),
            _ => rejected(before, after, action),
        },
        Phase::AwaitingCompletion => match event {
            Event::Completion(answer) => follows_completion(before, answer, after, action),
            _ => rejected(before, after, action),
        },
        Phase::Validating(raw) => match event {
            Event::Resume => follows_validation(before, raw, after, action),
            _ => rejected(before, after, action),
        },
        Phase::AwaitingConfirmation(proposal) => follows_confirmation(
            before,
            proposal,
            event,
            after,
            action,
        ),
        Phase::Applying(applying) => follows_applying(before, applying, event, after, action),
        Phase::Done => after == before && action is Finished,
        Phase::Cancelled => after == before && action is Finished,
        Phase::Failed(_) => after == before && action is Finished,
    }
}

/// What one step makes of a task. A failure from outside fails a task in
/// whatever phase it is, unless it has ended; any other event takes the task
/// on as its phase says.
pub open spec fn steps_to(before: Task, event: Event, after: Task, action: Action) -> bool {
    match event {
        Event::Failure(e) => if before.phase_of().ended() {
            after == before && action is Finished
        } else {
            failed_with(before, after, action, e)
        },
        _ => proceeds_to(before, event, after, action),
    }
}

impl Task {
    /// The kind of proposal that the task works towards.
    pub closed spec fn kind_of(self) -> TaskKind {
        self.kind
    }

    /// The README as the task has read it; empty before that, and where there
    /// is none.
    pub closed spec fn readme_of(self) -> Seq<char> {
        self.readme@
    }

    /// The phase that the task is in.
    pub closed spec fn phase_of(self) -> Phase {
        self.phase
    }

    /// A task that has not started.
    pub fn new(kind: TaskKind) -> (task: Task)
        ensures
            task.kind_of() == kind,
            task.readme_of() == Seq::<char>::empty(),
            task.phase_of() is Idle,
    {
        Task { kind, readme: String::new(), phase: Phase::Idle }
    }

    /// The kind of proposal that the task works towards.
    pub fn kind(&self) -> (kind: TaskKind)
        ensures
            kind == self.kind_of(),
    {
        self.kind
    }

    /// The phase that the task is in.
    pub fn phase(&self) -> (phase: &Phase)
        ensures
            *phase == self.phase_of(),
    {
        &self.phase
    }

    /// The stage that the task is in.
    pub fn stage(&self) -> (stage: Stage)
        ensures
            stage == self.phase_of().stage_of(),
    {
        match &self.phase {
            Phase::Idle => Stage::Idle,
            Phase::ExtractingChanges(_) => Stage::ExtractingChanges,
            Phase::ReadingReadme(_) => Stage::ExtractingChanges,
            Phase::BudgetingTokens(_) => Stage::BudgetingTokens,
            Phase::BuildingPrompt { .. } => Stage::BuildingPrompt,
            Phase::AwaitingCompletion => Stage::AwaitingCompletion,
            Phase::Validating(_) => Stage::Validating,
            Phase::AwaitingConfirmation(_) => Stage::AwaitingConfirmation,
            Phase::Applying(_) => Stage::Applying,
            Phase::Done => Stage::Done,
            Phase::Cancelled => Stage::Cancelled,
            Phase::Failed(e) => Stage::Failed(e.kind()),
        }
    }

    /// Whether the task has ended.
    pub fn has_ended(&self) -> (b: bool)
        ensures
            b == self.phase_of().ended(),
    {
        match &self.phase {
            Phase::Done => true,
            Phase::Cancelled => true,
            Phase::Failed(_) => true,
            _ => false,
        }
    }

    /// How the task ended; `None` while it runs.
    pub fn finish(self) -> (outcome: Option<Outcome>)
        ensures
            outcome == Outcome::of_phase(self.phase_of()),
    {
        match self.phase {
            Phase::Done => Some(Outcome::Done),
            Phase::Cancelled => Some(Outcome::Cancelled),
            Phase::Failed(e) => Some(Outcome::Failed(e)),
            _ => None,
        }
    }

    /// Takes an event and says what to do next. The tokenizer is used by the
    /// budgeting step alone.
    pub fn step(self, tokenizer: &Tokenizer, event: Event) -> (r: (Task, Action))
        ensures
            steps_to(self, event, r.0, r.1),
    {
        match event {
            Event::Failure(e) => {
                if self.has_ended() {
                    (self, Action::Finished)
                } else {
                    (
                        Task { kind: self.kind, readme: self.readme, phase: Phase::Failed(e) },
                        Action::Finished,
                    )
                }
            },
            _ => self.proceed(tokenizer, event),
        }
    }

    /// Takes an event that is no failure from outside.
    fn proceed(self, tokenizer: &Tokenizer, event: Event) -> (r: (Task, Action))
        requires
            !(event is Failure),
        ensures
            proceeds_to(self, event, r.0, r.1),
    {
        let Task { kind, readme, phase } = self;
        match phase {
            Phase::Idle => match event {
                Event::Start => {
                    let (extraction, command) = Extraction::begin(kind);
                    (
                        Task { kind, readme, phase: Phase::ExtractingChanges(extraction) },
                        Action::RunVcs(command),
                    )
                },
                _ => (Task { kind, readme, phase: Phase::Idle }, Action::Rejected),
            },
            Phase::ExtractingChanges(extraction) => match event {
                Event::Vcs(outcome) => {
                    let r = extraction.advance(outcome);
                    let (after, action) = match r {
                        Extracted::Ask(next, command) => (
                            Task { kind, readme, phase: Phase::ExtractingChanges(next) },
                            Action::RunVcs(command),
                        ),
                        Extracted::Done(changes) => match kind {
                            TaskKind::ReadmeUpdate => (
                                Task { kind, readme, phase: Phase::ReadingReadme(changes) },
                                Action::ReadReadme,
                            ),
                            _ => (
                                Task { kind, readme, phase: Phase::BudgetingTokens(changes) },
                                Action::Continue,
                            ),
                        },
                        Extracted::Failed(e) => (
                            Task { kind, readme, phase: Phase::Failed(e) },
                            Action::Finished,
                        ),
                    };
                    (after, action)
                },
                _ => (
                    Task { kind, readme, phase: Phase::ExtractingChanges(extraction) },
                    Action::Rejected,
                ),
            },
            Phase::ReadingReadme(changes) => match event {
                Event::ReadmeRead(read) => match read {
                    Ok(content) => {
                        let readme = match content {
                            Some(text) => text,
                            None => String::new(),
                        };
                        (
                            Task { kind, readme, phase: Phase::BudgetingTokens(changes) },
                            Action::Continue,
                        )
                    },
                    Err(detail) => (
                        Task {
                            kind,
                            readme,
                            phase: Phase::Failed(CommitauraError::IoFailure(detail)),
                        },
                        Action::Finished,
                    ),
                },
                _ => (Task { kind, readme, phase: Phase::ReadingReadme(changes) }, Action::Rejected),
            },
            Phase::BudgetingTokens(changes) => match event {
                Event::Resume => {
                    match budget_context(tokenizer, kind, &changes, readme.as_str()) {
                        Ok(f) => (
                            Task {
                                kind,
                                readme,
                                phase: Phase::BuildingPrompt {
                                    changes,
                                    context: f.text,
                                    truncated: f.truncated,
                                },
                            },
                            Action::Continue,
                        ),
                        Err(e) => (Task { kind, readme, phase: Phase::Failed(e) }, Action::Finished),
                    }
                },
                _ => (
                    Task { kind, readme, phase: Phase::BudgetingTokens(changes) },
                    Action::Rejected,
                ),
            },
            Phase::BuildingPrompt { changes, context, truncated } => match event {
                Event::Resume => {
                    let prompt = PromptSpec::build(kind, &changes, context.as_str());
                    let request = CompletionRequest::for_task(kind, prompt);
                    (
                        Task { kind, readme, phase: Phase::AwaitingCompletion },
                        Action::RequestCompletion { request, truncated },
                    )
                },
                _ => (
                    Task { kind, readme, phase: Phase::BuildingPrompt { changes, context, truncated } },
                    Action::Rejected,
                ),
            },
            Phase::AwaitingCompletion => match event {
                Event::Completion(answer) => match read_completion(answer) {
                    Ok(raw) => (Task { kind, readme, phase: Phase::Validating(raw) }, Action::Continue),
                    Err(e) => (Task { kind, readme, phase: Phase::Failed(e) }, Action::Finished),
                },
                _ => (Task { kind, readme, phase: Phase::AwaitingCompletion }, Action::Rejected),
            },
            Phase::Validating(raw) => match event {
                Event::Resume => match validate_completion(raw.as_str()) {
                    Ok(proposal) => {
                        let shown = proposal.clone();
                        (
                            Task { kind, readme, phase: Phase::AwaitingConfirmation(proposal) },
                            Action::AskConfirmation(shown),
                        )
                    },
                    Err(e) => (Task { kind, readme, phase: Phase::Failed(e) }, Action::Finished),
                },
                _ => (Task { kind, readme, phase: Phase::Validating(raw) }, Action::Rejected),
            },
            Phase::AwaitingConfirmation(proposal) => match event {
                Event::Confirmation(accepted) => {
                    if accepted {
                        let (applying, action) = apply(kind, readme.as_str(), proposal);
                        (Task { kind, readme, phase: Phase::Applying(applying) }, action)
                    } else {
                        (Task { kind, readme, phase: Phase::Cancelled }, Action::Finished)
                    }
                },
                Event::Selection(selection) => match kind {
                    TaskKind::ReadmeUpdate => {
                        let update = select_from(proposal.as_str(), &selection);
                        if update.as_str().is_empty() {
                            (Task { kind, readme, phase: Phase::Cancelled }, Action::Finished)
                        } else {
                            let (applying, action) = apply(kind, readme.as_str(), update);
                            (Task { kind, readme, phase: Phase::Applying(applying) }, action)
                        }
                    },
                    _ => (
                        Task { kind, readme, phase: Phase::AwaitingConfirmation(proposal) },
                        Action::Rejected,
                    ),
                },
                _ => (
                    Task { kind, readme, phase: Phase::AwaitingConfirmation(proposal) },
                    Action::Rejected,
                ),
            },
            Phase::Applying(applying) => match applying {
                Applying::Commit => match event {
                    Event::Vcs(outcome) => match perform_git_commit(outcome) {
                        Ok(()) => (Task { kind, readme, phase: Phase::Done }, Action::Finished),
                        Err(e) => (Task { kind, readme, phase: Phase::Failed(e) }, Action::Finished),
                    },
                    _ => (
                        Task { kind, readme, phase: Phase::Applying(Applying::Commit) },
                        Action::Rejected,
                    ),
                },
                Applying::Readme => match event {
                    Event::ReadmeWritten(written) => match written {
                        Ok(()) => (Task { kind, readme, phase: Phase::Done }, Action::Finished),
                        Err(detail) => (
                            Task {
                                kind,
                                readme,
                                phase: Phase::Failed(CommitauraError::IoFailure(detail)),
                            },
                            Action::Finished,
                        ),
                    },
                    _ => (
                        Task { kind, readme, phase: Phase::Applying(Applying::Readme) },
                        Action::Rejected,
                    ),
                },
                Applying::CreatingBranch(name) => match event {
                    Event::Vcs(outcome) => match check_status(outcome) {
                        Ok(()) => (
                            Task { kind, readme, phase: Phase::Applying(Applying::Pushing) },
                            Action::RunVcs(VcsCommand::Push(name)),
                        ),
                        Err(e) => (Task { kind, readme, phase: Phase::Failed(e) }, Action::Finished),
                    },
                    _ => (
                        Task { kind, readme, phase: Phase::Applying(Applying::CreatingBranch(name)) },
                        Action::Rejected,
                    ),
                },
                Applying::Pushing => match event {
                    Event::Vcs(outcome) => match check_status(outcome) {
                        Ok(()) => (Task { kind, readme, phase: Phase::Done }, Action::Finished),
                        Err(e) => (Task { kind, readme, phase: Phase::Failed(e) }, Action::Finished),
                    },
                    _ => (
                        Task { kind, readme, phase: Phase::Applying(Applying::Pushing) },
                        Action::Rejected,
                    ),
                },
            },
            Phase::Done => (Task { kind, readme, phase: Phase::Done }, Action::Finished),
            Phase::Cancelled => (Task { kind, readme, phase: Phase::Cancelled }, Action::Finished),
            Phase::Failed(e) => (Task { kind, readme, phase: Phase::Failed(e) }, Action::Finished),
        }
    }
}

/// Begins to apply `update` for a task of this kind: what the task then waits
/// for, and the action that brings it.
fn apply(kind: TaskKind, readme: &str, update: String) -> (r: (Applying, Action))
    ensures
        match kind {
            TaskKind::CommitMessage => {
                &&& r.0 is Commit
                &&& r.1 matches Action::RunVcs(VcsCommand::Commit(message))
                &&& message@ == update@
            },
            TaskKind::ReadmeUpdate => {
                &&& r.0 is Readme
                &&& r.1 matches Action::WriteReadme(content)
                &&& content@ == merged(readme@, update@)
            },
            TaskKind::BranchAndPr => {
                &&& r.0 matches Applying::CreatingBranch(name)
                &&& name@ == branch_name_of(update@)
                &&& r.1 matches Action::RunVcs(VcsCommand::CreateBranch(branch))
                &&& branch@ == branch_name_of(update@)
            },
        },
{
    match kind {
        TaskKind::CommitMessage => (Applying::Commit, Action::RunVcs(VcsCommand::Commit(update))),
        TaskKind::ReadmeUpdate => {
            let document = ReadmeDocument { current: readme.to_owned(), update };
            (Applying::Readme, Action::WriteReadme(document.merge()))
        },
        TaskKind::BranchAndPr => {
            let name = branch_name(update.as_str());
            let branch = name.clone();
            (Applying::CreatingBranch(name), Action::RunVcs(VcsCommand::CreateBranch(branch)))
        },
    }
}

/// The stage that follows `stage` when all goes well; a task that has ended
/// has no next stage and stays where it is.
pub open spec fn next_stage(stage: Stage) -> Stage {
    match stage {
        Stage::Idle => Stage::ExtractingChanges,
        Stage::ExtractingChanges => Stage::BudgetingTokens,
        Stage::BudgetingTokens => Stage::BuildingPrompt,
        Stage::BuildingPrompt => Stage::AwaitingCompletion,
        Stage::AwaitingCompletion => Stage::Validating,
        Stage::Validating => Stage::AwaitingConfirmation,
        Stage::AwaitingConfirmation => Stage::Applying,
        Stage::Applying => Stage::Done,
        Stage::Done => Stage::Done,
        Stage::Cancelled => Stage::Cancelled,
        Stage::Failed(kind) => Stage::Failed(kind),
    }
}

/// A failure can come to a task wherever it is: a failure from outside fails
/// every task that has not ended.
pub proof fn lemma_failure_from_anywhere(
    before: Task,
    e: CommitauraError,
    after: Task,
    action: Action,
)
    requires
        steps_to(before, Event::Failure(e), after, action),
        !before.phase_of().ended(),
    ensures
        after.phase_of() == Phase::Failed(e),
        action is Finished,
{
}

/// A task that has ended stays as it is, whatever comes: a failure is never
/// left, and nothing follows a task that is done or cancelled.
pub proof fn lemma_ended_is_absorbing(before: Task, event: Event, after: Task, action: Action)
    requires
        steps_to(before, event, after, action),
        before.phase_of().ended(),
    ensures
        after == before,
        action is Finished,
{
}

/// A task says that it has ended exactly when it has.
pub proof fn lemma_finished_iff_ended(before: Task, event: Event, after: Task, action: Action)
    requires
        steps_to(before, event, after, action),
    ensures
        action is Finished <==> after.phase_of().ended(),
{
}

/// One step takes a task to the next stage at most: the task stays in its
/// stage, moves on to the one that follows, fails, or, where it waits for the
/// user's word and nowhere else, is cancelled.
pub proof fn lemma_stages_in_order(before: Task, event: Event, after: Task, action: Action)
    requires
        steps_to(before, event, after, action),
    ensures
        ({
            let from = before.phase_of().stage_of();
            let to = after.phase_of().stage_of();
            ||| to == from
            ||| to == next_stage(from)
            ||| to is Failed && from != Stage::Done && from != Stage::Cancelled
            ||| to == Stage::Cancelled && from == Stage::AwaitingConfirmation
        }),
{
}

/// Nothing changes the repository without the user's word. A task begins to
/// apply its proposal only when the user accepts it, or picks lines of it,
/// while the task waits for that; and an action that commits, writes the
/// README, or creates or pushes a branch comes only from that step and from
/// a task that is applying already.
pub proof fn lemma_mutation_needs_confirmation(
    before: Task,
    event: Event,
    after: Task,
    action: Action,
)
    requires
        steps_to(before, event, after, action),
    ensures
        action.mutates() ==> after.phase_of() is Applying,
        after.phase_of() is Applying && !(before.phase_of() is Applying) ==> {
            &&& before.phase_of() is AwaitingConfirmation
            &&& event == Event::Confirmation(true) || event is Selection
        },
{
}

/// The model is asked only once the prompt is built: a request is only ever
/// the answer to a task in the prompt building stage, which no task reaches
/// without changes to work on and a budget that holds.
pub proof fn lemma_request_needs_prompt(before: Task, event: Event, after: Task, action: Action)
    requires
        steps_to(before, event, after, action),
        action is RequestCompletion,
    ensures
        before.phase_of() is BuildingPrompt,
        event is Resume,
        after.phase_of() is AwaitingCompletion,
{
}

/// A context is budgeted whenever it can be: where the fixed parts of the
/// prompt fit and the tokenizer can take the context, the budgeting step goes
/// on to the building of the prompt, with a leading part of the context.
pub proof fn lemma_budget_that_holds_goes_on(
    before: Task,
    changes: ChangeSet,
    after: Task,
    action: Action,
)
    requires
        steps_to(before, Event::Resume, after, action),
        before.phase_of() == Phase::BudgetingTokens(changes),
        can_budget(before.kind_of(), changes@, before.readme_of()),
    ensures
        after.phase_of() matches Phase::BuildingPrompt { context, .. } && context@.is_prefix_of(
            context_text(before.kind_of(), changes@, before.readme_of()),
        ),
        action is Continue,
{
}

/// A prompt whose fixed parts alone cost more than the model takes is never
/// sent: the budgeting step fails the task with `TokenizationFailed`.
pub proof fn lemma_overdrawn_budget_fails(
    before: Task,
    changes: ChangeSet,
    after: Task,
    action: Action,
)
    requires
        steps_to(before, Event::Resume, after, action),
        before.phase_of() == Phase::BudgetingTokens(changes),
        fixed_cost(before.kind_of(), changes@) > MAX_TOKENS,
    ensures
        after.phase_of() matches Phase::Failed(e) && e is TokenizationFailed,
        action is Finished,
{
}

/// An answer that is empty after trimming is never shown or applied: the
/// validating step fails the task with `EmptyCompletion`.
pub proof fn lemma_blank_answer_fails(before: Task, raw: String, after: Task, action: Action)
    requires
        steps_to(before, Event::Resume, after, action),
        before.phase_of() == Phase::Validating(raw),
        trimmed(raw@).len() == 0,
    ensures
        after.phase_of() == Phase::Failed(CommitauraError::EmptyCompletion),
        action is Finished,
{
}

/// How a task ended.
#[derive(Debug)]
pub enum Outcome {
    /// The proposal was applied.
    Done,
    /// The user declined; nothing was applied.
    Cancelled,
    /// The task failed.
    Failed(CommitauraError),
}

impl Outcome {
    /// The outcome of a task in this phase; `None` while the task runs.
    pub open spec fn of_phase(phase: Phase) -> Option<Outcome> {
        match phase {
            Phase::Done => Some(Outcome::Done),
            Phase::Cancelled => Some(Outcome::Cancelled),
            Phase::Failed(e) => Some(Outcome::Failed(e)),
            _ => None,
        }
    }

    /// Whether this outcome is told to the user as plain information, not as
    /// an error: a declined proposal, and nothing staged.
    pub open spec fn informational(self) -> bool {
        match self {
            Outcome::Done => false,
            Outcome::Cancelled => true,
            Outcome::Failed(e) => e is NoStagedChanges,
        }
    }

    /// The exit status that this outcome calls for: zero unless the task
    /// failed.
    pub open spec fn exit_status(self) -> u8 {
        match self {
            Outcome::Failed(_) => 1,
            _ => 0,
        }
    }

    /// Whether this outcome is told to the user as plain information.
    pub fn is_informational(&self) -> (b: bool)
        ensures
            b == self.informational(),
    {
        match self {
            Outcome::Done => false,
            Outcome::Cancelled => true,
            Outcome::Failed(e) => match e {
                CommitauraError::NoStagedChanges => true,
                _ => false,
            },
        }
    }

    /// The exit status that this outcome calls for.
    pub fn exit_code(&self) -> (code: u8)
        ensures
            code == self.exit_status(),
    {
        match self {
            Outcome::Failed(_) => 1,
            _ => 0,
        }
    }
}

} // verus!
