use vstd::prelude::*;
use crate::role::{Role, next_role};

verus! {

/// Where a step stands: which collaborator answer the engine waits for.
#[derive(Debug, Clone, Copy, PartialEq, Eq, Structural)]
pub enum Phase {
    Idle,
    AwaitRepo,
    AwaitPlan,
    AwaitPlanSaved,
    AwaitEdit,
    AwaitFormat,
    AwaitCheck,
    AwaitTest,
    AwaitDiscard,
    AwaitStaged,
    AwaitCommit,
    AwaitAudit,
}

/// What a collaborator reported, without its payload.
#[derive(Debug, Clone, Copy, PartialEq, Eq, Structural)]
pub enum Signal {
    RepoRead,
    Planned,
    PlanSaved,
    Edited,
    Formatted,
    Checked(bool),
    Tested(bool),
    Staged,
    Committed,
    AuditSaved,
    Discarded,
}

/// What the engine asks for next, without its payload.
#[derive(Debug, Clone, Copy, PartialEq, Eq, Structural)]
pub enum Effect {
    ReadState,
    RequestPlan,
    SavePlan,
    RequestEdit,
    RunFormat,
    RunCheck,
    RunTest,
    StageAll,
    Commit,
    SaveAudit(u32),
    Discard,
    Advanced,
    Exhausted,
    Rejected,
}

/// The abstract state of the step engine: the long-lived counters, the bound
/// on attempts, and the progress of the step under way.
#[derive(Debug, Clone, Copy, PartialEq, Eq, Structural)]
pub struct EngineModel {
    pub role: Role,
    pub step: u32,
    pub max_attempts: u32,
    pub phase: Phase,
    pub attempt: u32,
    pub check_ok: bool,
    pub test_ok: bool,
}

/// The success predicate of a role. The format check is observed but never
/// gates success: red for the tester, green for the other two roles, and in
/// both cases the static check must pass.
pub open spec fn role_succeeds(role: Role, check_ok: bool, test_ok: bool) -> bool {
    match role {
        Role::Tester => check_ok && !test_ok,
        Role::Implementor | Role::Refactorer => check_ok && test_ok,
    }
}

pub open spec fn in_attempt(p: Phase) -> bool {
    p == Phase::AwaitEdit || p == Phase::AwaitFormat || p == Phase::AwaitCheck
        || p == Phase::AwaitTest || p == Phase::AwaitDiscard || p == Phase::AwaitStaged
        || p == Phase::AwaitCommit || p == Phase::AwaitAudit
}

impl EngineModel {
    pub open spec fn wf(self) -> bool {
        &&& self.phase != Phase::Idle ==> self.step < u32::MAX
        &&& in_attempt(self.phase) ==> 1 <= self.attempt && (self.attempt <= self.max_attempts
            || self.attempt == 1)
    }

    pub open spec fn with_phase(self, p: Phase) -> EngineModel {
        EngineModel { phase: p, ..self }
    }
}

/// Starting a step: whatever was under way is dropped and the repository is read.
pub open spec fn begin(m: EngineModel) -> EngineModel {
    EngineModel { phase: Phase::AwaitRepo, attempt: 0, check_ok: false, test_ok: false, ..m }
}

/// One move of the engine: the state after a collaborator's report and what
/// the engine asks for next. A report that does not fit the phase is rejected
/// and changes nothing.
pub open spec fn transition(m: EngineModel, s: Signal) -> (EngineModel, Effect) {
    let rejected = (m, Effect::Rejected);
    match s {
        Signal::RepoRead => if m.phase == Phase::AwaitRepo {
            (m.with_phase(Phase::AwaitPlan), Effect::RequestPlan)
        } else { rejected },
        Signal::Planned => if m.phase == Phase::AwaitPlan {
            (m.with_phase(Phase::AwaitPlanSaved), Effect::SavePlan)
        } else { rejected },
        Signal::PlanSaved => if m.phase == Phase::AwaitPlanSaved {
            (EngineModel { phase: Phase::AwaitEdit, attempt: 1, ..m }, Effect::RequestEdit)
        } else { rejected },
        Signal::Edited => if m.phase == Phase::AwaitEdit {
            (m.with_phase(Phase::AwaitFormat), Effect::RunFormat)
        } else { rejected },
        Signal::Formatted => if m.phase == Phase::AwaitFormat {
            (m.with_phase(Phase::AwaitCheck), Effect::RunCheck)
        } else { rejected },
        Signal::Checked(ok) => if m.phase == Phase::AwaitCheck {
            (EngineModel { phase: Phase::AwaitTest, check_ok: ok, ..m }, Effect::RunTest)
        } else { rejected },
        Signal::Tested(ok) => if m.phase == Phase::AwaitTest {
            if role_succeeds(m.role, m.check_ok, ok) {
                (EngineModel { phase: Phase::AwaitStaged, test_ok: ok, ..m }, Effect::StageAll)
            } else {
                (EngineModel { phase: Phase::AwaitDiscard, test_ok: ok, ..m }, Effect::Discard)
            }
        } else { rejected },
        Signal::Discarded => if m.phase == Phase::AwaitDiscard {
            if m.attempt >= m.max_attempts {
                (m.with_phase(Phase::Idle), Effect::Exhausted)
            } else {
                (EngineModel { phase: Phase::AwaitEdit, attempt: (m.attempt + 1) as u32, ..m },
                 Effect::RequestEdit)
            }
        } else { rejected },
        Signal::Staged => if m.phase == Phase::AwaitStaged {
            (m.with_phase(Phase::AwaitCommit), Effect::Commit)
        } else { rejected },
        Signal::Committed => if m.phase == Phase::AwaitCommit {
            (m.with_phase(Phase::AwaitAudit), Effect::SaveAudit(m.attempt))
        } else { rejected },
        Signal::AuditSaved => if m.phase == Phase::AwaitAudit {
            (EngineModel {
                phase: Phase::Idle,
                role: next_role(m.role),
                step: (m.step + 1) as u32,
                ..m
            }, Effect::Advanced)
        } else { rejected },
    }
}

/// The engine driven by a sequence of reports: the final state and every
/// effect asked for, in order.
pub open spec fn run(m: EngineModel, signals: Seq<Signal>) -> (EngineModel, Seq<Effect>)
    decreases signals.len(),
{
    if signals.len() == 0 {
        (m, Seq::empty())
    } else {
        let (m1, e) = transition(m, signals[0]);
        let (m2, es) = run(m1, signals.drop_first());
        (m2, seq![e] + es)
    }
}

/// How many times `e` occurs in `es`.
pub open spec fn count(es: Seq<Effect>, e: Effect) -> nat
    decreases es.len(),
{
    if es.len() == 0 {
        0
    } else {
        (if es[0] == e { 1nat } else { 0nat }) + count(es.drop_first(), e)
    }
}

/// The reports of one attempt: the edit, then the three checks in order.
pub open spec fn attempt_signals(check_ok: bool, test_ok: bool) -> Seq<Signal> {
    seq![Signal::Edited, Signal::Formatted, Signal::Checked(check_ok), Signal::Tested(test_ok)]
}

/// The reports of a sequence of failed attempts, each closed by its rollback.
pub open spec fn failed_attempts(outcomes: Seq<(bool, bool)>) -> Seq<Signal>
    decreases outcomes.len(),
{
    if outcomes.len() == 0 {
        Seq::empty()
    } else {
        attempt_signals(outcomes[0].0, outcomes[0].1).push(Signal::Discarded)
            + failed_attempts(outcomes.drop_first())
    }
}

/// The reports that open a step: repository state, plan, plan persisted.
pub open spec fn opening_signals() -> Seq<Signal> {
    seq![Signal::RepoRead, Signal::Planned, Signal::PlanSaved]
}

/// The reports that close a successful step: staged, committed, audited.
pub open spec fn closing_signals() -> Seq<Signal> {
    seq![Signal::Staged, Signal::Committed, Signal::AuditSaved]
}

/// The verification-judgment policy: whether an attempt of `role` succeeded,
/// given the outcomes of the format, static and test checks.
pub fn judge(role: Role, fmt_ok: bool, check_ok: bool, test_ok: bool) -> (r: bool)
    ensures
        r == role_succeeds(role, check_ok, test_ok),
{
    match role {
        Role::Tester => check_ok && !test_ok,
        Role::Implementor | Role::Refactorer => check_ok && test_ok,
    }
}

} // verus!
