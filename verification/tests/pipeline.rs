use commitaura::changes::{ChangeSet, VcsCommand, VcsOutput};
use commitaura::error::{CommitauraError, ErrorKind};
use commitaura::pipeline::{
    budget_context, Action, Applying, Event, Outcome, Phase, Stage, Task,
};
use commitaura::prompt::TaskKind;
use commitaura::tokens::Tokenizer;

fn wrote(text: &str) -> Event {
    Event::Vcs(Ok(VcsOutput { success: true, stdout: text.as_bytes().to_vec() }))
}

fn ended(success: bool) -> Event {
    Event::Vcs(Ok(VcsOutput { success, stdout: Vec::new() }))
}

fn answered(text: &str) -> Event {
    Event::Completion(Ok(vec![Some(text.to_string())]))
}

/// Feeds the events to the task one by one and collects what it asks for.
fn run(task: Task, events: Vec<Event>) -> (Task, Vec<Action>) {
    let tokenizer = Tokenizer::p50k_base().unwrap();
    let mut task = task;
    let mut actions = Vec::new();
    for event in events {
        let (next, action) = task.step(&tokenizer, event);
        task = next;
        actions.push(action);
    }
    (task, actions)
}

fn staged(diff: &str) -> Vec<Event> {
    vec![
        Event::Start,
        ended(false),
        wrote("Add lexer\nInitial commit"),
        wrote("src/tokenizer.rs\n"),
        wrote(diff),
    ]
}

fn up_to_confirmation(kind: TaskKind, answer: &str) -> Vec<Event> {
    let mut events = staged("+    let end = start + len - 1;\n");
    if kind == TaskKind::ReadmeUpdate {
        events.push(Event::ReadmeRead(Ok(Some("# A\n".to_string()))));
    }
    events.extend([Event::Resume, Event::Resume, answered(answer), Event::Resume]);
    events
}

fn requests(actions: &[Action]) -> usize {
    actions.iter().filter(|a| matches!(a, Action::RequestCompletion { .. })).count()
}

fn mutations(actions: &[Action]) -> usize {
    actions
        .iter()
        .filter(|a| {
            matches!(
                a,
                Action::WriteReadme(_)
                    | Action::RunVcs(VcsCommand::Commit(_))
                    | Action::RunVcs(VcsCommand::CreateBranch(_))
                    | Action::RunVcs(VcsCommand::Push(_))
            )
        })
        .count()
}

#[test]
fn test_generate_commit_message() {
    let (task, actions) = run(
        Task::new(TaskKind::CommitMessage),
        up_to_confirmation(TaskKind::CommitMessage, "  Fix parser off-by-one in tokenizer.rs\n"),
    );
    assert_eq!(task.stage(), Stage::AwaitingConfirmation);
    assert!(matches!(
        task.phase(),
        Phase::AwaitingConfirmation(p) if p == "Fix parser off-by-one in tokenizer.rs"
    ));
    assert_eq!(requests(&actions), 1);
    let Some(Action::RequestCompletion { request, truncated }) =
        actions.iter().find(|a| matches!(a, Action::RequestCompletion { .. }))
    else {
        panic!("the model should have been asked");
    };
    assert!(!truncated);
    assert_eq!(request.model, "gpt-4o");
    assert_eq!(request.sampling.max_tokens, 100);
    assert!(request.prompt.user().ends_with(
        "Last 5 commit messages:\nAdd lexer\nInitial commit\n\nCurrent changes:\n+    let end = start + len - 1;\n"
    ));
    assert!(matches!(
        actions.last(),
        Some(Action::AskConfirmation(p)) if p == "Fix parser off-by-one in tokenizer.rs"
    ));
}

#[test]
fn commit_task_asks_for_each_command_in_turn() {
    let (task, actions) = run(Task::new(TaskKind::CommitMessage), staged("+x\n"));
    assert!(matches!(actions[0], Action::RunVcs(VcsCommand::StagedQuiet)));
    assert!(matches!(actions[1], Action::RunVcs(VcsCommand::RecentSubjects(5))));
    assert!(matches!(actions[2], Action::RunVcs(VcsCommand::StagedFiles)));
    assert!(matches!(actions[3], Action::RunVcs(VcsCommand::StagedDiff)));
    assert!(matches!(actions[4], Action::Continue));
    assert_eq!(task.stage(), Stage::BudgetingTokens);
}

#[test]
fn empty_diff_fails_before_the_model_is_asked() {
    let mut events = staged("");
    events.extend([Event::Resume, Event::Resume, answered("never"), Event::Resume]);
    let (task, actions) = run(Task::new(TaskKind::CommitMessage), events);
    assert_eq!(task.stage(), Stage::Failed(ErrorKind::NoStagedChanges));
    assert_eq!(requests(&actions), 0);
    assert_eq!(mutations(&actions), 0);
    assert!(matches!(actions[4], Action::Finished));
    assert!(matches!(task.finish(), Some(Outcome::Failed(CommitauraError::NoStagedChanges))));
}

#[test]
fn nothing_staged_fails_at_the_first_command() {
    let (task, actions) = run(Task::new(TaskKind::CommitMessage), vec![Event::Start, ended(true)]);
    assert_eq!(task.stage(), Stage::Failed(ErrorKind::NoStagedChanges));
    assert!(matches!(actions[1], Action::Finished));
    assert_eq!(requests(&actions), 0);
}

#[test]
fn empty_completion_fails_without_touching_the_repository() {
    for answer in ["", "  \n\t"] {
        let mut events = up_to_confirmation(TaskKind::CommitMessage, answer);
        events.extend([Event::Confirmation(true), ended(true)]);
        let (task, actions) = run(Task::new(TaskKind::CommitMessage), events);
        assert_eq!(task.stage(), Stage::Failed(ErrorKind::EmptyCompletion));
        assert_eq!(requests(&actions), 1);
        assert_eq!(mutations(&actions), 0);
        assert!(!actions.iter().any(|a| matches!(a, Action::AskConfirmation(_))));
        assert!(matches!(task.finish(), Some(Outcome::Failed(CommitauraError::EmptyCompletion))));
    }
}

#[test]
fn accepted_proposal_is_committed_once_with_its_exact_text() {
    let mut events =
        up_to_confirmation(TaskKind::CommitMessage, "Fix parser off-by-one in tokenizer.rs");
    events.extend([Event::Confirmation(true), ended(true)]);
    let (task, actions) = run(Task::new(TaskKind::CommitMessage), events);
    assert_eq!(task.stage(), Stage::Done);
    let commits: Vec<&String> = actions
        .iter()
        .filter_map(|a| match a {
            Action::RunVcs(VcsCommand::Commit(message)) => Some(message),
            _ => None,
        })
        .collect();
    assert_eq!(commits, vec!["Fix parser off-by-one in tokenizer.rs"]);
    assert_eq!(mutations(&actions), 1);
    assert!(matches!(actions.last(), Some(Action::Finished)));
    assert!(matches!(task.finish(), Some(Outcome::Done)));
}

#[test]
fn declined_proposal_cancels_the_task() {
    let mut events = up_to_confirmation(TaskKind::CommitMessage, "Fix it");
    events.push(Event::Confirmation(false));
    let (task, actions) = run(Task::new(TaskKind::CommitMessage), events);
    assert_eq!(task.stage(), Stage::Cancelled);
    assert!(task.has_ended());
    assert_eq!(mutations(&actions), 0);
    let outcome = task.finish().unwrap();
    assert!(matches!(outcome, Outcome::Cancelled));
    assert!(outcome.is_informational());
    assert_eq!(outcome.exit_code(), 0);
}

#[test]
fn failed_commit_fails_the_task() {
    let mut events = up_to_confirmation(TaskKind::CommitMessage, "Fix it");
    events.extend([Event::Confirmation(true), ended(false)]);
    let (task, _) = run(Task::new(TaskKind::CommitMessage), events);
    assert!(matches!(
        task.phase(),
        Phase::Failed(CommitauraError::GitOperationFailed(d)) if d == "Git commit failed"
    ));
}

#[test]
fn failed_request_fails_the_task_with_its_reason() {
    let mut events = staged("+x\n");
    events.extend([Event::Resume, Event::Resume, Event::Completion(Err("timed out".to_string()))]);
    let (task, actions) = run(Task::new(TaskKind::CommitMessage), events);
    assert!(matches!(
        task.phase(),
        Phase::Failed(CommitauraError::CompletionFailed(d)) if d == "timed out"
    ));
    assert!(matches!(actions.last(), Some(Action::Finished)));
}

#[test]
fn answer_without_a_message_fails_the_task() {
    let mut events = staged("+x\n");
    events.extend([Event::Resume, Event::Resume, Event::Completion(Ok(vec![None]))]);
    let (task, _) = run(Task::new(TaskKind::CommitMessage), events);
    assert_eq!(task.stage(), Stage::Failed(ErrorKind::CompletionFailed));
}

#[test]
fn ended_task_stays_as_it_is() {
    let (task, _) = run(Task::new(TaskKind::CommitMessage), vec![Event::Start, ended(true)]);
    let (task, actions) = run(
        task,
        vec![
            Event::Start,
            Event::Resume,
            ended(false),
            answered("x"),
            Event::Confirmation(true),
            Event::Selection(vec![0]),
            Event::ReadmeRead(Ok(None)),
            Event::ReadmeWritten(Ok(())),
        ],
    );
    assert_eq!(task.stage(), Stage::Failed(ErrorKind::NoStagedChanges));
    assert!(actions.iter().all(|a| matches!(a, Action::Finished)));
}

#[test]
fn unexpected_event_is_rejected() {
    let (task, actions) = run(
        Task::new(TaskKind::CommitMessage),
        vec![Event::Resume, Event::Confirmation(true), Event::Start, Event::Confirmation(true)],
    );
    assert!(matches!(actions[0], Action::Rejected));
    assert!(matches!(actions[1], Action::Rejected));
    assert!(matches!(actions[2], Action::RunVcs(VcsCommand::StagedQuiet)));
    assert!(matches!(actions[3], Action::Rejected));
    assert_eq!(task.stage(), Stage::ExtractingChanges);
    assert!(!task.has_ended());
    assert!(task.finish().is_none());
}

#[test]
fn confirmation_is_not_taken_before_there_is_a_proposal() {
    let mut events = staged("+x\n");
    events.extend([Event::Confirmation(true), Event::Resume, Event::Confirmation(true)]);
    let (task, actions) = run(Task::new(TaskKind::CommitMessage), events);
    assert_eq!(task.stage(), Stage::BuildingPrompt);
    assert_eq!(mutations(&actions), 0);
}

#[test]
fn readme_task_reads_the_readme_and_writes_the_merge() {
    let mut events = up_to_confirmation(TaskKind::ReadmeUpdate, "## B\n");
    events.extend([Event::Confirmation(true), Event::ReadmeWritten(Ok(()))]);
    let (task, actions) = run(Task::new(TaskKind::ReadmeUpdate), events);
    assert_eq!(task.kind(), TaskKind::ReadmeUpdate);
    assert_eq!(task.stage(), Stage::Done);
    assert!(matches!(actions[4], Action::ReadReadme));
    let Some(Action::RequestCompletion { request, .. }) =
        actions.iter().find(|a| matches!(a, Action::RequestCompletion { .. }))
    else {
        panic!("the model should have been asked");
    };
    assert_eq!(request.sampling.max_tokens, 500);
    assert!(request.prompt.user().contains("Current README:\n# A\n"));
    assert!(request.prompt.user().ends_with("Staged changes:\n+    let end = start + len - 1;\n"));
    let written: Vec<&String> = actions
        .iter()
        .filter_map(|a| match a {
            Action::WriteReadme(content) => Some(content),
            _ => None,
        })
        .collect();
    assert_eq!(written, vec!["# A\n\n\n## B"]);
}

#[test]
fn readme_task_without_a_readme_starts_from_nothing() {
    let mut events = staged("+x\n");
    events.extend([
        Event::ReadmeRead(Ok(None)),
        Event::Resume,
        Event::Resume,
        answered("## B"),
        Event::Resume,
        Event::Confirmation(true),
    ]);
    let (_, actions) = run(Task::new(TaskKind::ReadmeUpdate), events);
    assert!(matches!(actions.last(), Some(Action::WriteReadme(content)) if content == "\n\n## B"));
}

#[test]
fn readme_task_applies_the_selected_lines() {
    let mut events = up_to_confirmation(TaskKind::ReadmeUpdate, "1. x\n2. y\n3. z");
    events.push(Event::Selection(vec![0, 2]));
    let (task, actions) = run(Task::new(TaskKind::ReadmeUpdate), events);
    assert!(matches!(task.phase(), Phase::Applying(Applying::Readme)));
    assert!(
        matches!(actions.last(), Some(Action::WriteReadme(content)) if content == "# A\n\n\n1. x\n3. z")
    );
}

#[test]
fn readme_task_with_nothing_selected_is_cancelled() {
    let mut events = up_to_confirmation(TaskKind::ReadmeUpdate, "1. x\n2. y\n3. z");
    events.push(Event::Selection(vec![]));
    let (task, actions) = run(Task::new(TaskKind::ReadmeUpdate), events);
    assert_eq!(task.stage(), Stage::Cancelled);
    assert_eq!(mutations(&actions), 0);
}

#[test]
fn readme_that_cannot_be_read_or_written_fails_the_task() {
    let mut events = staged("+x\n");
    events.push(Event::ReadmeRead(Err("permission denied".to_string())));
    let (task, _) = run(Task::new(TaskKind::ReadmeUpdate), events);
    assert!(matches!(
        task.phase(),
        Phase::Failed(CommitauraError::IoFailure(d)) if d == "permission denied"
    ));
    let mut events = up_to_confirmation(TaskKind::ReadmeUpdate, "## B");
    events.extend([Event::Confirmation(true), Event::ReadmeWritten(Err("disk full".to_string()))]);
    let (task, _) = run(Task::new(TaskKind::ReadmeUpdate), events);
    assert!(matches!(
        task.phase(),
        Phase::Failed(CommitauraError::IoFailure(d)) if d == "disk full"
    ));
}

#[test]
fn commit_task_has_no_lines_to_select() {
    let mut events = up_to_confirmation(TaskKind::CommitMessage, "Fix it");
    events.push(Event::Selection(vec![0]));
    let (task, actions) = run(Task::new(TaskKind::CommitMessage), events);
    assert!(matches!(actions.last(), Some(Action::Rejected)));
    assert_eq!(task.stage(), Stage::AwaitingConfirmation);
}

#[test]
fn branch_task_checks_the_branch_before_anything_else() {
    let (task, actions) =
        run(Task::new(TaskKind::BranchAndPr), vec![Event::Start, wrote("feature/x\n")]);
    assert!(matches!(actions[0], Action::RunVcs(VcsCommand::CurrentBranch)));
    assert!(matches!(actions[1], Action::Finished));
    assert!(matches!(
        task.phase(),
        Phase::Failed(CommitauraError::GitOperationFailed(d))
            if d == "the current branch is not a trunk branch"
    ));
}

#[test]
fn branch_task_creates_the_branch_and_pushes_it() {
    let events = vec![
        Event::Start,
        wrote("main\n"),
        wrote("Fix parser off-by-one\nAdd tokenizer tests"),
        Event::Resume,
        Event::Resume,
        answered("fix/parser-off-by-one\n\nFixes the off-by-one in tokenizer.rs."),
        Event::Resume,
        Event::Confirmation(true),
        ended(true),
        ended(true),
    ];
    let (task, actions) = run(Task::new(TaskKind::BranchAndPr), events);
    assert_eq!(task.stage(), Stage::Done);
    let Action::RequestCompletion { request, .. } = &actions[4] else {
        panic!("the model should have been asked");
    };
    assert_eq!(request.sampling.max_tokens, 200);
    assert!(request
        .prompt
        .user()
        .ends_with("Unpushed commits:\nFix parser off-by-one\nAdd tokenizer tests"));
    assert!(
        matches!(&actions[7], Action::RunVcs(VcsCommand::CreateBranch(b)) if b == "fix/parser-off-by-one")
    );
    assert!(matches!(&actions[8], Action::RunVcs(VcsCommand::Push(b)) if b == "fix/parser-off-by-one"));
    assert!(matches!(actions[9], Action::Finished));
}

#[test]
fn branch_that_cannot_be_created_is_not_pushed() {
    let events = vec![
        Event::Start,
        wrote("master"),
        wrote("Fix parser"),
        Event::Resume,
        Event::Resume,
        answered("fix/parser"),
        Event::Resume,
        Event::Confirmation(true),
        ended(false),
    ];
    let (task, actions) = run(Task::new(TaskKind::BranchAndPr), events);
    assert_eq!(task.stage(), Stage::Failed(ErrorKind::GitOperationFailed));
    assert!(!actions.iter().any(|a| matches!(a, Action::RunVcs(VcsCommand::Push(_)))));
}

#[test]
fn failure_from_outside_fails_a_running_task() {
    let io = || Event::Failure(CommitauraError::IoFailure("terminal closed".to_string()));
    let (task, actions) = run(Task::new(TaskKind::CommitMessage), vec![io()]);
    assert_eq!(task.stage(), Stage::Failed(ErrorKind::IoFailure));
    assert!(matches!(actions[0], Action::Finished));
    let mut events = up_to_confirmation(TaskKind::CommitMessage, "Fix it");
    events.push(io());
    let (task, actions) = run(Task::new(TaskKind::CommitMessage), events);
    assert!(matches!(
        task.phase(),
        Phase::Failed(CommitauraError::IoFailure(d)) if d == "terminal closed"
    ));
    assert_eq!(mutations(&actions), 0);
}

#[test]
fn failure_from_outside_leaves_an_ended_task_alone() {
    let mut events = up_to_confirmation(TaskKind::CommitMessage, "Fix it");
    events.extend([
        Event::Confirmation(false),
        Event::Failure(CommitauraError::IoFailure("late".to_string())),
    ]);
    let (task, actions) = run(Task::new(TaskKind::CommitMessage), events);
    assert_eq!(task.stage(), Stage::Cancelled);
    assert!(matches!(actions.last(), Some(Action::Finished)));
}

#[test]
fn stages_come_in_order() {
    let mut events =
        up_to_confirmation(TaskKind::CommitMessage, "Fix parser off-by-one in tokenizer.rs");
    events.extend([Event::Confirmation(true), ended(true)]);
    let tokenizer = Tokenizer::p50k_base().unwrap();
    let mut task = Task::new(TaskKind::CommitMessage);
    let mut seen = vec![task.stage()];
    for event in events {
        task = task.step(&tokenizer, event).0;
        if seen.last() != Some(&task.stage()) {
            seen.push(task.stage());
        }
    }
    assert_eq!(
        seen,
        vec![
            Stage::Idle,
            Stage::ExtractingChanges,
            Stage::BudgetingTokens,
            Stage::BuildingPrompt,
            Stage::AwaitingCompletion,
            Stage::Validating,
            Stage::AwaitingConfirmation,
            Stage::Applying,
            Stage::Done,
        ]
    );
}

#[test]
fn outcomes_have_their_exit_codes() {
    assert_eq!(Outcome::Done.exit_code(), 0);
    assert!(!Outcome::Done.is_informational());
    assert_eq!(Outcome::Cancelled.exit_code(), 0);
    assert!(Outcome::Cancelled.is_informational());
    let nothing = Outcome::Failed(CommitauraError::NoStagedChanges);
    assert_eq!(nothing.exit_code(), 1);
    assert!(nothing.is_informational());
    let failed = Outcome::Failed(CommitauraError::EmptyCompletion);
    assert_eq!(failed.exit_code(), 1);
    assert!(!failed.is_informational());
}

#[test]
fn budgeting_leaves_a_small_context_alone() {
    let tokenizer = Tokenizer::p50k_base().unwrap();
    let changes = ChangeSet {
        diff: "+x\n".to_string(),
        files: vec!["a.rs".to_string()],
        recent_subjects: vec!["Fix".to_string()],
    };
    let fitted = budget_context(&tokenizer, TaskKind::CommitMessage, &changes, "").unwrap();
    assert_eq!(fitted.text, "+x\n");
    assert!(!fitted.truncated);
}

#[test]
fn budgeting_refuses_what_cannot_be_tokenized() {
    let tokenizer = Tokenizer::p50k_base().unwrap();
    let changes = ChangeSet {
        diff: "+x\n".to_string(),
        files: vec![],
        recent_subjects: vec![" ".repeat(999_000)],
    };
    assert!(matches!(
        budget_context(&tokenizer, TaskKind::CommitMessage, &changes, ""),
        Err(CommitauraError::TokenizationFailed(_))
    ));
}

#[test]
fn budgeting_cuts_the_end_of_a_context_that_is_too_large() {
    let tokenizer = Tokenizer::p50k_base().unwrap();
    let mut diff = String::new();
    for i in 0..40_000 {
        diff.push_str(&format!("+line {}\n", i));
    }
    let changes = ChangeSet { diff, files: vec![], recent_subjects: vec![] };
    let fitted = budget_context(&tokenizer, TaskKind::CommitMessage, &changes, "").unwrap();
    assert!(fitted.truncated);
    assert!(changes.diff.starts_with(&fitted.text));
    assert!(fitted.text.starts_with("+line 0\n+line 1\n"));
    assert!(fitted.text.len() < changes.diff.len());
}

#[test]
fn task_that_cannot_be_budgeted_fails_before_the_model_is_asked() {
    let mut events = staged(&"Qq".repeat(499_500));
    events.extend([Event::Resume, Event::Resume, answered("never"), Event::Resume]);
    let (task, actions) = run(Task::new(TaskKind::CommitMessage), events);
    assert!(matches!(
        task.phase(),
        Phase::Failed(CommitauraError::TokenizationFailed(d))
            if d == "the text holds more characters of one kind in a row than the tokenizer's pattern matcher can take"
    ));
    assert_eq!(requests(&actions), 0);
}
