use vstd::prelude::*;
use vstd::string::StrSliceExecFns;
use crate::role::{Role, role_title};
use crate::text::{decimal, decimal_string};
use crate::types::{StepContext, StepResult, texts};

verus! {

/// One message of a chat exchange with the reasoning service.
pub struct Message {
    pub role: String,
    pub content: String,
}

/// `s` without the run of `c` that ends it.
pub open spec fn strip_trailing(s: Seq<char>, c: char) -> Seq<char>
    decreases s.len(),
{
    if s.len() > 0 && s.last() == c {
        strip_trailing(s.drop_last(), c)
    } else {
        s
    }
}

/// A base URL without its trailing slashes.
pub fn normalize_base_url(url: &String) -> (r: String)
    ensures
        r@ == strip_trailing(url@, '/'),
{
    let s = url.as_str();
    let mut n: usize = s.unicode_len();
    assert(s@.subrange(0, n as int) =~= url@);
    while n > 0 && s.get_char(n - 1) == '/'
        invariant
            n <= s@.len(),
            s@ == url@,
            strip_trailing(s@.subrange(0, n as int), '/') == strip_trailing(url@, '/'),
        decreases n,
    {
        assert(s@.subrange(0, n as int).drop_last() =~= s@.subrange(0, n - 1));
        n -= 1;
    }
    assert(s@.subrange(0, n as int).len() == 0 || s@.subrange(0, n as int).last() != '/');
    String::from_str(s.substring_char(0, n))
}

pub open spec fn chat_url_text(base: Seq<char>) -> Seq<char> {
    base + "/chat/completions"@
}

/// The chat endpoint under a normalised base URL.
pub fn chat_url(base: &String) -> (r: String)
    ensures
        r@ == chat_url_text(base@),
{
    let mut s = base.clone();
    s.append("/chat/completions");
    s
}

pub open spec fn file_section_text(path: Seq<char>, content: Seq<char>) -> Seq<char> {
    "--- "@ + path + " ---\n"@ + content + "\n\n"@
}

/// How one file of the working tree is shown to a producer.
pub fn file_section(path: &String, content: &String) -> (r: String)
    ensures
        r@ == file_section_text(path@, content@),
{
    let mut s = String::from_str("--- ");
    s.append(path.as_str());
    s.append(" ---\n");
    s.append(content.as_str());
    s.append("\n\n");
    s
}

/// What a producer is told when asked for a plan.
pub open spec fn user_prompt_text(ctx: StepContext, role: Role, files: Seq<char>) -> Seq<char> {
    "Step: "@ + decimal(ctx.step_index as nat) + "\nRole: "@ + role_title(role) + "\nKata: "@
        + ctx.kata_description@ + "\n\nLast Commit: "@ + ctx.git_last_commit_msg@
        + "\n\nLast Diff:\n"@ + ctx.git_last_diff@ + "\n\nCurrent Files:\n"@ + files
}

pub fn user_prompt(ctx: &StepContext, role: Role, files: &String) -> (r: String)
    ensures
        r@ == user_prompt_text(*ctx, role, files@),
{
    let mut s = String::from_str("Step: ");
    let n = decimal_string(ctx.step_index);
    s.append(n.as_str());
    s.append("\nRole: ");
    s.append(role.title());
    s.append("\nKata: ");
    s.append(ctx.kata_description.as_str());
    s.append("\n\nLast Commit: ");
    s.append(ctx.git_last_commit_msg.as_str());
    s.append("\n\nLast Diff:\n");
    s.append(ctx.git_last_diff.as_str());
    s.append("\n\nCurrent Files:\n");
    s.append(files.as_str());
    s
}

/// One edit proposed by a producer.
pub struct FileEdit {
    pub path: String,
    pub action: String,
    pub content: String,
}

/// A producer's proposal: its edits, the commit summary and the rationale.
pub struct EditPlan {
    pub edits: Vec<FileEdit>,
    pub commit_message: String,
    pub notes: String,
}

pub open spec fn is_upsert_text(action: Seq<char>) -> bool {
    action == "upsert"@
}

/// Whether an edit writes its file; other actions are ignored.
pub fn is_upsert(edit: &FileEdit) -> (r: bool)
    ensures
        r == is_upsert_text(edit.action@),
{
    let upsert = String::from_str("upsert");
    edit.action == upsert
}

/// The paths of the edits that write their file, in order.
pub open spec fn upsert_paths(edits: Seq<FileEdit>) -> Seq<Seq<char>>
    decreases edits.len(),
{
    if edits.len() == 0 {
        Seq::empty()
    } else {
        let rest = upsert_paths(edits.drop_last());
        if is_upsert_text(edits.last().action@) {
            rest.push(edits.last().path@)
        } else {
            rest
        }
    }
}

/// What a producer reports once the plan's upserts are written.
pub fn step_result_of(plan: &EditPlan) -> (r: StepResult)
    ensures
        texts(r.files_changed@) == upsert_paths(plan.edits@),
        r.commit_message@ == plan.commit_message@,
        r.notes@ == plan.notes@,
{
    let mut files: Vec<String> = Vec::new();
    let mut i: usize = 0;
    while i < plan.edits.len()
        invariant
            i <= plan.edits@.len(),
            texts(files@) == upsert_paths(plan.edits@.subrange(0, i as int)),
        decreases plan.edits@.len() - i,
    {
        let e = &plan.edits[i];
        assert(plan.edits@.subrange(0, i + 1).drop_last() =~= plan.edits@.subrange(0, i as int));
        if is_upsert(e) {
            files.push(e.path.clone());
            assert(texts(files@) =~= upsert_paths(plan.edits@.subrange(0, i as int)).push(e.path@));
        }
        i += 1;
    }
    assert(plan.edits@.subrange(0, plan.edits@.len() as int) =~= plan.edits@);
    StepResult {
        files_changed: files,
        commit_message: plan.commit_message.clone(),
        notes: plan.notes.clone(),
    }
}

/// `s` without the leading and trailing white space that `str::trim` removes.
pub uninterp spec fn trimmed_of(s: Seq<char>) -> Seq<char>;

/// Relies on `str::trim`: the result depends on the characters alone.
#[verifier::external_body]
fn trim_text(s: &str) -> (r: String)
    ensures
        r@ == trimmed_of(s@),
{
    s.trim().to_string()
}

/// `s` without every repetition of `p` at its start.
pub open spec fn strip_leading(s: Seq<char>, p: Seq<char>) -> Seq<char>
    decreases s.len(),
{
    if p.len() > 0 && p.len() <= s.len() && s.subrange(0, p.len() as int) == p {
        strip_leading(s.subrange(p.len() as int, s.len() as int), p)
    } else {
        s
    }
}

/// `s` without every repetition of `p` at its end.
pub open spec fn strip_ending(s: Seq<char>, p: Seq<char>) -> Seq<char>
    decreases s.len(),
{
    if p.len() > 0 && p.len() <= s.len() && s.subrange(s.len() - p.len(), s.len() as int) == p {
        strip_ending(s.subrange(0, s.len() - p.len()), p)
    } else {
        s
    }
}

/// Whether `p` occurs in `s` at character position `at`.
fn occurs_at(s: &str, at: usize, p: &str) -> (r: bool)
    requires
        at + p@.len() <= s@.len(),
        s@.len() <= usize::MAX,
    ensures
        r == (s@.subrange(at as int, at + p@.len()) == p@),
{
    let k = p.unicode_len();
    let mut i: usize = 0;
    while i < k
        invariant
            k == p@.len(),
            at + k <= s@.len(),
            s@.len() <= usize::MAX,
            i <= k,
            forall|j: int| 0 <= j < i ==> s@[at + j] == p@[j],
        decreases k - i,
    {
        if s.get_char(at + i) != p.get_char(i) {
            assert(s@.subrange(at as int, at + p@.len())[i as int] != p@[i as int]);
            return false;
        }
        i += 1;
    }
    assert(s@.subrange(at as int, at + p@.len()) =~= p@);
    true
}

fn strip_leading_text(s: String, p: &str) -> (r: String)
    requires
        p@.len() > 0,
    ensures
        r@ == strip_leading(s@, p@),
{
    let mut cur = s;
    let k = p.unicode_len();
    loop
        invariant
            k == p@.len(),
            k > 0,
            strip_leading(cur@, p@) == strip_leading(s@, p@),
        decreases cur@.len(),
    {
        let n = cur.as_str().unicode_len();
        if k <= n && occurs_at(cur.as_str(), 0, p) {
            let next = String::from_str(cur.as_str().substring_char(k, n));
            cur = next;
        } else {
            return cur;
        }
    }
}

fn strip_ending_text(s: String, p: &str) -> (r: String)
    requires
        p@.len() > 0,
    ensures
        r@ == strip_ending(s@, p@),
{
    let mut cur = s;
    let k = p.unicode_len();
    loop
        invariant
            k == p@.len(),
            k > 0,
            strip_ending(cur@, p@) == strip_ending(s@, p@),
        decreases cur@.len(),
    {
        let n = cur.as_str().unicode_len();
        if k <= n && occurs_at(cur.as_str(), n - k, p) {
            let next = String::from_str(cur.as_str().substring_char(0, n - k));
            cur = next;
        } else {
            return cur;
        }
    }
}

/// The markdown code fences that a producer may wrap its answer in.
pub open spec fn unfenced(t: Seq<char>) -> Seq<char> {
    strip_ending(strip_leading(strip_leading(t, "```json"@), "```"@), "```"@)
}

/// Removes opening fences (with or without a `json` tag) and closing fences.
pub fn strip_fences(t: &String) -> (r: String)
    ensures
        r@ == unfenced(t@),
{
    proof {
        reveal_strlit("```json");
        reveal_strlit("```");
    }
    let a = strip_leading_text(t.clone(), "```json");
    let b = strip_leading_text(a, "```");
    strip_ending_text(b, "```")
}

/// A producer's raw answer, trimmed, without fences, and trimmed again.
pub fn clean_response(raw: &String) -> (r: String)
    ensures
        r@ == trimmed_of(unfenced(trimmed_of(raw@))),
{
    let t = trim_text(raw.as_str());
    let u = strip_fences(&t);
    trim_text(u.as_str())
}

} // verus!
