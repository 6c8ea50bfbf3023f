use commitaura::changes::ChangeSet;
use commitaura::prompt::{
    system_message, task_instructions, variable_context, PromptSpec, Role, TaskKind,
};

fn changes() -> ChangeSet {
    ChangeSet {
        diff: "+fn parse() {}\n".to_string(),
        files: vec!["src/parser.rs".to_string(), "README.md".to_string()],
        recent_subjects: vec!["Add lexer".to_string(), "Initial commit".to_string()],
    }
}

#[test]
fn commit_prompt_has_the_instructions_then_the_diff() {
    let prompt = PromptSpec::build(TaskKind::CommitMessage, &changes(), "+fn parse() {}\n");
    assert_eq!(
        prompt.system(),
        "You are a helpful assistant that generates concise and meaningful Git commit messages."
    );
    assert_eq!(
        prompt.user(),
        "Write a highly specific, imperative Git commit message based only on the following changes. Do NOT use generic phrases like 'improved readability', 'aesthetic appeal', or 'refactored code'. Instead, reference concrete details such as filenames, functions, variables, or logic that was changed. Be precise about what was changed, how, and why. Do not include any other text except the commit message. Consider the context of the last 5 commit messages:\n\nLast 5 commit messages:\nAdd lexer\nInitial commit\n\nCurrent changes:\n+fn parse() {}\n"
    );
}

#[test]
fn prompt_has_one_system_and_one_user_message() {
    for kind in [TaskKind::CommitMessage, TaskKind::ReadmeUpdate, TaskKind::BranchAndPr] {
        let prompt = PromptSpec::build(kind, &changes(), "context");
        let messages = prompt.messages();
        assert_eq!(messages.len(), 2);
        assert_eq!(messages[0].role, Role::System);
        assert_eq!(messages[0].content, system_message(kind));
        assert_eq!(messages[1].role, Role::User);
        assert_eq!(messages[1].content, format!("{}context", task_instructions(kind, &changes())));
    }
}

#[test]
fn instructions_ask_for_specifics() {
    for kind in [TaskKind::CommitMessage, TaskKind::ReadmeUpdate, TaskKind::BranchAndPr] {
        let text = task_instructions(kind, &changes());
        assert!(text.contains("Do NOT use generic phrases like"));
        assert!(text.contains("reference concrete details such as filenames, functions"));
    }
}

#[test]
fn instructions_do_not_depend_on_the_diff() {
    let mut other = changes();
    other.diff = "-removed\n".repeat(1000);
    for kind in [TaskKind::CommitMessage, TaskKind::ReadmeUpdate, TaskKind::BranchAndPr] {
        assert_eq!(task_instructions(kind, &other), task_instructions(kind, &changes()));
    }
}

#[test]
fn commit_context_is_the_diff() {
    assert_eq!(variable_context(TaskKind::CommitMessage, &changes(), "# A\n"), "+fn parse() {}\n");
}

#[test]
fn readme_context_holds_the_readme_and_the_diff() {
    assert_eq!(
        variable_context(TaskKind::ReadmeUpdate, &changes(), "# A\n"),
        "Current README:\n# A\n\n\nChanged files:\nsrc/parser.rs\nREADME.md\n\nStaged changes:\n+fn parse() {}\n"
    );
}

#[test]
fn readme_context_without_a_readme_starts_with_the_files() {
    assert_eq!(
        variable_context(TaskKind::ReadmeUpdate, &changes(), ""),
        "Changed files:\nsrc/parser.rs\nREADME.md\n\nStaged changes:\n+fn parse() {}\n"
    );
}

#[test]
fn branch_context_is_the_commit_subjects() {
    assert_eq!(
        variable_context(TaskKind::BranchAndPr, &changes(), ""),
        "Add lexer\nInitial commit"
    );
}
