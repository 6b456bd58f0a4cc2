use vstd::prelude::*;
use crate::role::{Role, role_name, role_title};
use crate::types::texts;

verus! {

pub open spec fn digit_char(d: nat) -> char {
    if d == 0 { '0' } else if d == 1 { '1' } else if d == 2 { '2' } else if d == 3 { '3' }
    else if d == 4 { '4' } else if d == 5 { '5' } else if d == 6 { '6' } else if d == 7 { '7' }
    else if d == 8 { '8' } else { '9' }
}

/// The decimal digits of `n`, most significant first, with no leading zero.
pub open spec fn decimal(n: nat) -> Seq<char>
    decreases n,
{
    if n < 10 {
        seq![digit_char(n)]
    } else {
        decimal(n / 10).push(digit_char(n % 10))
    }
}

/// The `Debug` rendering of a list of strings: brackets, quotes, escapes.
pub uninterp spec fn debug_list_of(items: Seq<Seq<char>>) -> Seq<char>;

/// Relies on `u32`'s `Display` (through `to_string`): decimal digits with no
/// sign and no leading zero.
#[verifier::external_body]
pub(crate) fn decimal_string(n: u32) -> (r: String)
    ensures
        r@ == decimal(n as nat),
{
    n.to_string()
}

/// Relies on `Vec<String>`'s `Debug` (through `format!`); the rendering
/// depends on the strings alone.
#[verifier::external_body]
fn debug_list(v: &Vec<String>) -> (r: String)
    ensures
        r@ == debug_list_of(texts(v@)),
{
    format!("{:?}", v)
}

/// Where the plan of step `step` for `role` is kept, relative to the work directory.
pub open spec fn plan_path(step: u32, role: Role) -> Seq<char> {
    ".tdd/plan/step-"@ + decimal(step as nat) + "-"@ + role_name(role) + ".md"@
}

/// Where the audit record of step `step` for `role` is kept, relative to the work directory.
pub open spec fn audit_path(step: u32, role: Role) -> Seq<char> {
    ".tdd/logs/step-"@ + decimal(step as nat) + "-"@ + role_name(role) + ".json"@
}

pub open spec fn verdict_text(test_ok: bool) -> Seq<char> {
    if test_ok { "PASS"@ } else { "FAIL"@ }
}

/// The message of the commit that closes a step: the producer's summary, then
/// the role, the step index, the rationale, the changed files and the verdict
/// of the test check.
pub open spec fn commit_text(
    summary: Seq<char>,
    role: Role,
    step: u32,
    notes: Seq<char>,
    files: Seq<Seq<char>>,
    test_ok: bool,
) -> Seq<char> {
    summary + "\n\nContext:\n- Role: "@ + role_title(role) + "\n- Step: "@ + decimal(step as nat)
        + "\n- Kata goal: ...\n\nRationale:\n"@ + notes + "\n\nDiff summary:\n"@
        + debug_list_of(files) + "\n\nVerification:\nTests: "@ + verdict_text(test_ok)
}

fn step_path(dir: &str, step: u32, role: Role, ext: &str) -> (r: String)
    ensures
        r@ == dir@ + decimal(step as nat) + "-"@ + role_name(role) + ext@,
{
    let mut s = String::from_str(dir);
    let n = decimal_string(step);
    s.append(n.as_str());
    s.append("-");
    s.append(role.as_str());
    s.append(ext);
    s
}

pub fn plan_file(step: u32, role: Role) -> (r: String)
    ensures
        r@ == plan_path(step, role),
{
    let r = step_path(".tdd/plan/step-", step, role, ".md");
    proof {
        reveal_strlit(".tdd/plan/step-");
        reveal_strlit(".md");
    }
    r
}

pub fn audit_file(step: u32, role: Role) -> (r: String)
    ensures
        r@ == audit_path(step, role),
{
    let r = step_path(".tdd/logs/step-", step, role, ".json");
    proof {
        reveal_strlit(".tdd/logs/step-");
        reveal_strlit(".json");
    }
    r
}

pub fn commit_message(
    summary: &String,
    role: Role,
    step: u32,
    notes: &String,
    files: &Vec<String>,
    test_ok: bool,
) -> (r: String)
    ensures
        r@ == commit_text(summary@, role, step, notes@, texts(files@), test_ok),
{
    let mut s = summary.clone();
    s.append("\n\nContext:\n- Role: ");
    s.append(role.title());
    s.append("\n- Step: ");
    let n = decimal_string(step);
    s.append(n.as_str());
    s.append("\n- Kata goal: ...\n\nRationale:\n");
    s.append(notes.as_str());
    s.append("\n\nDiff summary:\n");
    let d = debug_list(files);
    s.append(d.as_str());
    s.append("\n\nVerification:\nTests: ");
    if test_ok {
        s.append("PASS");
    } else {
        s.append("FAIL");
    }
    s
}

} // verus!
