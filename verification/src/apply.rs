//! The update applier: what a confirmed proposal does to the repository.

use crate::changes::VcsOutput;
use crate::error::CommitauraError;
use crate::text::{join, joined, lines, lines_of, texts, trim, trimmed};
use vstd::prelude::*;

verus! {

/// What the commit command says when it ends with a non-zero status.
pub open spec fn commit_failed_text() -> Seq<char> {
    "Git commit failed"@
}

/// What the failure of the commit command says: the reason given where it
/// could not be started, else that the commit failed.
pub open spec fn commit_failure(outcome: Result<VcsOutput, String>) -> Seq<char> {
    match outcome {
        Ok(_) => commit_failed_text(),
        Err(detail) => detail@,
    }
}

/// Decides from the outcome of the commit command whether the commit was made:
/// it was when the command ended with status zero.
pub fn perform_git_commit(outcome: Result<VcsOutput, String>) -> (r: Result<(), CommitauraError>)
    ensures
        if outcome matches Ok(output) && output.success {
            r is Ok
        } else {
            &&& r matches Err(CommitauraError::GitOperationFailed(d))
            &&& d@ == commit_failure(outcome)
        },
{
    match outcome {
        Ok(output) => if output.success {
            Ok(())
        } else {
            Err(CommitauraError::GitOperationFailed("Git commit failed".to_owned()))
        },
        Err(detail) => Err(CommitauraError::GitOperationFailed(detail)),
    }
}

/// What stands between the README and what is added to it: one empty line.
pub open spec fn separator() -> Seq<char> {
    "\n\n"@
}

/// The README after an update: the current content, the separator, the update.
/// Nothing of either is changed, and nothing else is added.
pub open spec fn merged(current: Seq<char>, update: Seq<char>) -> Seq<char> {
    current + separator() + update
}

/// An update changes nothing of what the README was and nothing of what is
/// added: the README after it begins with what it was, ends with what was
/// added, and holds the separator between the two and nothing else. Without a
/// README it is the separator and what was added.
pub proof fn lemma_merge_keeps_both(current: Seq<char>, update: Seq<char>)
    ensures
        merged(current, update).len() == current.len() + 2 + update.len(),
        current.is_prefix_of(merged(current, update)),
        merged(current, update).skip(current.len() as int + 2) == update,
        current.len() == 0 ==> merged(current, update) == separator() + update,
{
    reveal_strlit("\n\n");
}

/// The README as it is, and what is proposed to be added to it.
#[derive(Debug)]
pub struct ReadmeDocument {
    /// The current content; empty where there is no README yet.
    pub current: String,
    /// The text to add.
    pub update: String,
}

impl ReadmeDocument {
    /// The content to write back in place of the whole file.
    pub fn merge(&self) -> (s: String)
        ensures
            s@ == merged(self.current@, self.update@),
    {
        let mut s = self.current.clone();
        s.append("\n\n");
        s.append(self.update.as_str());
        s
    }
}

/// The branch name that a branch and pull request proposal gives: its first
/// line, without the whitespace around it.
pub open spec fn branch_name_of(proposal: Seq<char>) -> Seq<char> {
    let all = lines_of(proposal);
    if all.len() > 0 {
        trimmed(all[0])
    } else {
        Seq::empty()
    }
}

/// The branch name that a branch and pull request proposal gives.
pub fn branch_name(proposal: &str) -> (name: String)
    ensures
        name@ == branch_name_of(proposal@),
{
    let all = lines(proposal);
    if all.len() > 0 {
        trim(all[0].as_str())
    } else {
        String::new()
    }
}

/// Whether the line at `index` is among those selected.
pub open spec fn selected(selection: Seq<usize>, index: int) -> bool {
    exists|k: int| 0 <= k < selection.len() && selection[k] == index
}

/// The lines whose index is selected, in the order in which they stand in
/// `lines`: a line is kept once however often its index is selected, and equal
/// lines at different indices are each kept.
pub open spec fn chosen(lines: Seq<Seq<char>>, selection: Seq<usize>) -> Seq<Seq<char>>
    decreases lines.len(),
{
    if lines.len() == 0 {
        Seq::empty()
    } else if selected(selection, lines.len() - 1) {
        chosen(lines.drop_last(), selection).push(lines.last())
    } else {
        chosen(lines.drop_last(), selection)
    }
}

/// The indices below `n` that are selected, in ascending order.
pub open spec fn kept_indices(n: nat, selection: Seq<usize>) -> Seq<int>
    decreases n,
{
    if n == 0 {
        Seq::empty()
    } else if selected(selection, n - 1) {
        kept_indices((n - 1) as nat, selection).push(n - 1)
    } else {
        kept_indices((n - 1) as nat, selection)
    }
}

/// The selected indices below `n` are below `n` and selected, they ascend, and
/// none that is selected is missing.
pub proof fn lemma_kept_indices(n: nat, selection: Seq<usize>)
    ensures
        forall|j: int|
            0 <= j < kept_indices(n, selection).len() ==> 0 <= (#[trigger] kept_indices(
                n,
                selection,
            )[j]) < n && selected(selection, kept_indices(n, selection)[j]),
        forall|a: int, b: int|
            0 <= a < b < kept_indices(n, selection).len() ==> kept_indices(n, selection)[a]
                < kept_indices(n, selection)[b],
        forall|i: int|
            0 <= i < n && selected(selection, i) ==> kept_indices(n, selection).contains(i),
    decreases n,
{
    if n > 0 {
        let before = kept_indices((n - 1) as nat, selection);
        let now = kept_indices(n, selection);
        lemma_kept_indices((n - 1) as nat, selection);
        assert forall|i: int| 0 <= i < n && selected(selection, i) implies now.contains(i) by {
            if i < n - 1 {
                let j = choose|j: int| 0 <= j < before.len() && before[j] == i;
                assert(now[j] == i);
            } else {
                assert(now[now.len() - 1] == i);
            }
        }
    }
}

/// Selecting never reorders and never drops or repeats a selected line: what
/// is chosen is the line at each selected index, in ascending order of the
/// indices, once each.
pub proof fn lemma_chosen_in_order(lines: Seq<Seq<char>>, selection: Seq<usize>)
    ensures
        chosen(lines, selection).len() == kept_indices(lines.len(), selection).len(),
        forall|j: int|
            0 <= j < chosen(lines, selection).len() ==> (#[trigger] chosen(lines, selection)[j])
                == lines[kept_indices(lines.len(), selection)[j]],
    decreases lines.len(),
{
    if lines.len() > 0 {
        lemma_chosen_in_order(lines.drop_last(), selection);
        lemma_kept_indices((lines.len() - 1) as nat, selection);
    }
}

/// Selecting every line keeps every line.
pub proof fn lemma_selecting_all_keeps_all(lines: Seq<Seq<char>>, selection: Seq<usize>)
    requires
        forall|i: int| 0 <= i < lines.len() ==> selected(selection, i),
    ensures
        chosen(lines, selection) == lines,
    decreases lines.len(),
{
    if lines.len() > 0 {
        lemma_selecting_all_keeps_all(lines.drop_last(), selection);
    }
}

/// Whether `index` occurs in `selection`.
fn is_selected(selection: &Vec<usize>, index: usize) -> (b: bool)
    ensures
        b == selected(selection@, index as int),
{
    let mut k: usize = 0;
    while k < selection.len()
        invariant
            k <= selection.len(),
            forall|j: int| 0 <= j < k ==> selection@[j] != index,
        decreases selection.len() - k,
    {
        if selection[k] == index {
            return true;
        }
        k = k + 1;
    }
    false
}

/// The text made of the selected lines, one to a line. `selection` holds the
/// indices of the lines to keep, counted from zero, in any order; an index
/// beyond the last line selects nothing.
pub fn select_lines(lines: &Vec<String>, selection: &Vec<usize>) -> (s: String)
    ensures
        s@ == joined(chosen(texts(lines@), selection@), "\n"@),
{
    let mut kept: Vec<String> = Vec::new();
    let mut i: usize = 0;
    while i < lines.len()
        invariant
            i <= lines.len(),
            texts(kept@) == chosen(texts(lines@).take(i as int), selection@),
        decreases lines.len() - i,
    {
        proof {
            let next = texts(lines@).take(i + 1);
            assert(next.drop_last() == texts(lines@).take(i as int));
        }
        if is_selected(selection, i) {
            kept.push(lines[i].clone());
        }
        i = i + 1;
    }
    assert(texts(lines@).take(lines.len() as int) == texts(lines@));
    join(&kept, "\n")
}

/// What is added to the README when only some lines of a suggestion are
/// wanted: the selected lines of the suggestion, one to a line.
pub open spec fn selection_text(suggestion: Seq<char>, selection: Seq<usize>) -> Seq<char> {
    joined(chosen(lines_of(suggestion), selection), "\n"@)
}

/// The selected lines of a suggestion, one to a line.
pub fn select_from(suggestion: &str, selection: &Vec<usize>) -> (s: String)
    ensures
        s@ == selection_text(suggestion@, selection@),
{
    let all = lines(suggestion);
    select_lines(&all, selection)
}

} // verus!
