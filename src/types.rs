use vstd::prelude::*;
use crate::role::Role;

verus! {

/// The immutable snapshot handed to a change-producer for one step.
#[derive(Debug, Clone)]
pub struct StepContext {
    pub role: Role,
    pub step_index: u32,
    pub kata_description: String,
    pub git_last_commit_msg: String,
    pub git_last_diff: String,
    pub repo_snapshot_paths: Vec<String>,
}

/// What a change-producer reports after applying its edits.
#[derive(Debug, Clone)]
pub struct StepResult {
    pub files_changed: Vec<String>,
    pub commit_message: String,
    pub notes: String,
}

/// What the repository gateway reports before a step begins.
#[derive(Debug, Clone)]
pub struct RepoState {
    pub last_commit_message: String,
    pub last_diff: String,
    pub files: Vec<String>,
}

/// The outcome of one verification command.
#[derive(Debug, Clone)]
pub struct RunnerOutcome {
    pub ok: bool,
    pub stdout: String,
    pub stderr: String,
}

/// The durable record of a successful step.
#[derive(Debug, Clone)]
pub struct AuditRecord {
    pub step: u32,
    pub role: Role,
    pub plan: String,
    pub attempts: u32,
    pub commit_id: String,
    pub fmt_output: RunnerOutcome,
    pub check_output: RunnerOutcome,
    pub test_output: RunnerOutcome,
}

/// The text contents of a list of strings.
pub open spec fn texts(v: Seq<String>) -> Seq<Seq<char>> {
    v.map_values(|s: String| s@)
}

pub fn copy_texts(v: &Vec<String>) -> (r: Vec<String>)
    ensures
        texts(r@) == texts(v@),
{
    let mut r: Vec<String> = Vec::new();
    let mut i: usize = 0;
    while i < v.len()
        invariant
            i <= v@.len(),
            r@.len() == i,
            forall|j: int| 0 <= j < i ==> #[trigger] r@[j]@ == v@[j]@,
        decreases v@.len() - i,
    {
        r.push(v[i].clone());
        i += 1;
    }
    assert(texts(r@) =~= texts(v@));
    r
}

impl StepContext {
    /// Field-by-field equality of the texts of two contexts.
    pub open spec fn same_as(&self, o: &StepContext) -> bool {
        &&& self.role == o.role
        &&& self.step_index == o.step_index
        &&& self.kata_description@ == o.kata_description@
        &&& self.git_last_commit_msg@ == o.git_last_commit_msg@
        &&& self.git_last_diff@ == o.git_last_diff@
        &&& texts(self.repo_snapshot_paths@) == texts(o.repo_snapshot_paths@)
    }

    /// The context of step `step` for `role`, built from the repository state
    /// and the kata text.
    pub open spec fn built_from(&self, role: Role, step: u32, kata: Seq<char>, repo: &RepoState) -> bool {
        &&& self.role == role
        &&& self.step_index == step
        &&& self.kata_description@ == kata
        &&& self.git_last_commit_msg@ == repo.last_commit_message@
        &&& self.git_last_diff@ == repo.last_diff@
        &&& texts(self.repo_snapshot_paths@) == texts(repo.files@)
    }

    pub fn build(role: Role, step: u32, kata: &String, repo: RepoState) -> (r: StepContext)
        ensures
            r.built_from(role, step, kata@, &repo),
    {
        StepContext {
            role,
            step_index: step,
            kata_description: kata.clone(),
            git_last_commit_msg: repo.last_commit_message,
            git_last_diff: repo.last_diff,
            repo_snapshot_paths: repo.files,
        }
    }

    pub fn duplicate(&self) -> (r: StepContext)
        ensures
            r.same_as(self),
    {
        StepContext {
            role: self.role,
            step_index: self.step_index,
            kata_description: self.kata_description.clone(),
            git_last_commit_msg: self.git_last_commit_msg.clone(),
            git_last_diff: self.git_last_diff.clone(),
            repo_snapshot_paths: copy_texts(&self.repo_snapshot_paths),
        }
    }
}

impl RunnerOutcome {
    pub open spec fn same_as(&self, o: &RunnerOutcome) -> bool {
        &&& self.ok == o.ok
        &&& self.stdout@ == o.stdout@
        &&& self.stderr@ == o.stderr@
    }

    /// A passing outcome with no output.
    pub fn passed() -> (r: RunnerOutcome)
        ensures
            r.ok,
            r.stdout@.len() == 0,
            r.stderr@.len() == 0,
    {
        RunnerOutcome { ok: true, stdout: String::new(), stderr: String::new() }
    }

    pub fn duplicate(&self) -> (r: RunnerOutcome)
        ensures
            r.same_as(self),
    {
        RunnerOutcome { ok: self.ok, stdout: self.stdout.clone(), stderr: self.stderr.clone() }
    }
}

impl StepResult {
    pub fn empty() -> (r: StepResult)
        ensures
            r.files_changed@.len() == 0,
            r.commit_message@.len() == 0,
            r.notes@.len() == 0,
    {
        StepResult { files_changed: Vec::new(), commit_message: String::new(), notes: String::new() }
    }
}

} // verus!
