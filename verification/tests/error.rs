use commitaura::error::{CommitauraError, ErrorKind};

#[test]
fn every_error_has_its_kind() {
    let d = || "x".to_string();
    assert_eq!(CommitauraError::NoStagedChanges.kind(), ErrorKind::NoStagedChanges);
    assert_eq!(CommitauraError::GitOperationFailed(d()).kind(), ErrorKind::GitOperationFailed);
    assert_eq!(CommitauraError::CompletionFailed(d()).kind(), ErrorKind::CompletionFailed);
    assert_eq!(CommitauraError::EmptyCompletion.kind(), ErrorKind::EmptyCompletion);
    assert_eq!(CommitauraError::TokenizationFailed(d()).kind(), ErrorKind::TokenizationFailed);
    assert_eq!(CommitauraError::EnvVarNotSet(d()).kind(), ErrorKind::EnvVarNotSet);
    assert_eq!(CommitauraError::IoFailure(d()).kind(), ErrorKind::IoFailure);
}

#[test]
fn every_error_has_its_message() {
    assert_eq!(CommitauraError::NoStagedChanges.message(), "No staged changes detected");
    assert_eq!(
        CommitauraError::GitOperationFailed("Git commit failed".to_string()).message(),
        "Git operation failed: Git commit failed"
    );
    assert_eq!(
        CommitauraError::CompletionFailed("No message in API response".to_string()).message(),
        "Completion failed: No message in API response"
    );
    assert_eq!(
        CommitauraError::EmptyCompletion.message(),
        "The model returned an empty completion"
    );
    assert_eq!(
        CommitauraError::TokenizationFailed("bad vocabulary".to_string()).message(),
        "Tokenizer error: bad vocabulary"
    );
    assert_eq!(
        CommitauraError::EnvVarNotSet("OPENAI_API_KEY".to_string()).message(),
        "Environment variable not set: OPENAI_API_KEY"
    );
    assert_eq!(
        CommitauraError::IoFailure("permission denied".to_string()).message(),
        "I/O error: permission denied"
    );
}
