use vstd::prelude::*;
use crate::machine::{EngineModel, Effect, Phase, Signal, begin, judge, transition};
use crate::role::Role;
use crate::text::{audit_file, audit_path, commit_message, commit_text, plan_file, plan_path};
use crate::types::{AuditRecord, RepoState, RunnerOutcome, StepContext, StepResult, texts};

verus! {

/// A collaborator's report to the engine, with its payload.
#[derive(Debug)]
pub enum Event {
    RepoRead(RepoState),
    Planned(String),
    PlanSaved,
    Edited(StepResult),
    Formatted(RunnerOutcome),
    Checked(RunnerOutcome),
    Tested(RunnerOutcome),
    Staged,
    Committed(String),
    AuditSaved,
    Discarded,
}

/// What the engine asks its collaborators to do next, with its payload.
#[derive(Debug)]
pub enum Action {
    /// Read the repository state.
    ReadState,
    /// Ask the role's producer for a plan.
    RequestPlan(StepContext),
    /// Persist the plan text at `path`, relative to the work directory.
    SavePlan { path: String, text: String },
    /// Ask the role's producer to apply its edits.
    RequestEdit(StepContext),
    RunFormat,
    RunCheck,
    RunTest,
    StageAll,
    Commit(String),
    /// Persist the audit record at `path`, relative to the work directory.
    SaveAudit { path: String, record: AuditRecord },
    /// Discard every working-tree change since the last commit.
    Discard,
    /// The step succeeded and the counters moved on.
    Advanced,
    /// Every attempt of step `step` failed: the run must stop.
    Exhausted { step: u32 },
    /// The report did not fit the engine's phase; nothing changed.
    Rejected,
}

impl Event {
    pub open spec fn signal(&self) -> Signal {
        match self {
            Event::RepoRead(_) => Signal::RepoRead,
            Event::Planned(_) => Signal::Planned,
            Event::PlanSaved => Signal::PlanSaved,
            Event::Edited(_) => Signal::Edited,
            Event::Formatted(_) => Signal::Formatted,
            Event::Checked(o) => Signal::Checked(o.ok),
            Event::Tested(o) => Signal::Tested(o.ok),
            Event::Staged => Signal::Staged,
            Event::Committed(_) => Signal::Committed,
            Event::AuditSaved => Signal::AuditSaved,
            Event::Discarded => Signal::Discarded,
        }
    }
}

impl Action {
    pub open spec fn effect(&self) -> Effect {
        match self {
            Action::ReadState => Effect::ReadState,
            Action::RequestPlan(_) => Effect::RequestPlan,
            Action::SavePlan { .. } => Effect::SavePlan,
            Action::RequestEdit(_) => Effect::RequestEdit,
            Action::RunFormat => Effect::RunFormat,
            Action::RunCheck => Effect::RunCheck,
            Action::RunTest => Effect::RunTest,
            Action::StageAll => Effect::StageAll,
            Action::Commit(_) => Effect::Commit,
            Action::SaveAudit { record, .. } => Effect::SaveAudit(record.attempts),
            Action::Discard => Effect::Discard,
            Action::Advanced => Effect::Advanced,
            Action::Exhausted { .. } => Effect::Exhausted,
            Action::Rejected => Effect::Rejected,
        }
    }
}

impl StepResult {
    pub open spec fn same_as(&self, o: &StepResult) -> bool {
        &&& texts(self.files_changed@) == texts(o.files_changed@)
        &&& self.commit_message@ == o.commit_message@
        &&& self.notes@ == o.notes@
    }

    pub fn duplicate(&self) -> (r: StepResult)
        ensures
            r.same_as(self),
    {
        StepResult {
            files_changed: crate::types::copy_texts(&self.files_changed),
            commit_message: self.commit_message.clone(),
            notes: self.notes.clone(),
        }
    }
}

/// The step engine: it owns the role and step counters and decides, report
/// by report, what each step does next. The collaborators' work is done by
/// its caller, which hands every outcome back as an `Event`.
pub struct TddOrchestrator {
    kata_description: String,
    max_attempts: u32,
    current_step: u32,
    current_role: Role,
    phase: Phase,
    attempt: u32,
    check_ok: bool,
    test_ok: bool,
    context: StepContext,
    plan: String,
    result: StepResult,
    fmt_output: RunnerOutcome,
    check_output: RunnerOutcome,
    test_output: RunnerOutcome,
    commit_id: String,
}

impl View for TddOrchestrator {
    type V = EngineModel;

    closed spec fn view(&self) -> EngineModel {
        EngineModel {
            role: self.current_role,
            step: self.current_step,
            max_attempts: self.max_attempts,
            phase: self.phase,
            attempt: self.attempt,
            check_ok: self.check_ok,
            test_ok: self.test_ok,
        }
    }
}

impl TddOrchestrator {
    pub closed spec fn kata(&self) -> Seq<char> {
        self.kata_description@
    }

    /// The context captured when the step under way read the repository.
    pub closed spec fn context(&self) -> StepContext {
        self.context
    }

    pub closed spec fn plan(&self) -> Seq<char> {
        self.plan@
    }

    /// What the producer reported on the latest edit.
    pub closed spec fn result(&self) -> StepResult {
        self.result
    }

    pub closed spec fn fmt_output(&self) -> RunnerOutcome {
        self.fmt_output
    }

    pub closed spec fn check_output(&self) -> RunnerOutcome {
        self.check_output
    }

    pub closed spec fn test_output(&self) -> RunnerOutcome {
        self.test_output
    }

    pub closed spec fn commit_id(&self) -> Seq<char> {
        self.commit_id@
    }

    pub open spec fn wf(&self) -> bool {
        self@.wf()
    }

    /// How a report's payload is kept: each accepted report stores what it
    /// carries, and nothing else changes. In particular the context changes
    /// only when a step reads the repository, never between attempts.
    pub open spec fn stores(pre: &Self, post: &Self, event: &Event) -> bool {
        let accepted = transition(pre@, event.signal()).1 != Effect::Rejected;
        &&& post.kata() == pre.kata()
        &&& if accepted && event is RepoRead {
            post.context().built_from(pre@.role, pre@.step, pre.kata(), &event->RepoRead_0)
        } else {
            post.context().same_as(&pre.context())
        }
        &&& post.plan() == if accepted && event is Planned { event->Planned_0@ } else { pre.plan() }
        &&& if accepted && event is Edited {
            post.result().same_as(&event->Edited_0)
        } else {
            post.result().same_as(&pre.result())
        }
        &&& if accepted && event is Formatted {
            post.fmt_output().same_as(&event->Formatted_0)
        } else {
            post.fmt_output().same_as(&pre.fmt_output())
        }
        &&& if accepted && event is Checked {
            post.check_output().same_as(&event->Checked_0)
        } else {
            post.check_output().same_as(&pre.check_output())
        }
        &&& if accepted && event is Tested {
            post.test_output().same_as(&event->Tested_0)
        } else {
            post.test_output().same_as(&pre.test_output())
        }
        &&& post.commit_id() == if accepted && event is Committed {
            event->Committed_0@
        } else {
            pre.commit_id()
        }
    }

    /// What an action carries, read off the engine's state after the move.
    pub open spec fn carries(&self, a: &Action) -> bool {
        match a {
            Action::RequestPlan(c) => c.same_as(&self.context()),
            Action::RequestEdit(c) => c.same_as(&self.context()),
            Action::SavePlan { path, text } => {
                &&& path@ == plan_path(self@.step, self@.role)
                &&& text@ == self.plan()
            },
            Action::Commit(msg) => msg@ == commit_text(
                self.result().commit_message@,
                self@.role,
                self@.step,
                self.result().notes@,
                texts(self.result().files_changed@),
                self@.test_ok,
            ),
            Action::SaveAudit { path, record } => {
                &&& path@ == audit_path(self@.step, self@.role)
                &&& record.step == self@.step
                &&& record.role == self@.role
                &&& record.attempts == self@.attempt
                &&& record.plan@ == self.plan()
                &&& record.commit_id@ == self.commit_id()
                &&& record.fmt_output.same_as(&self.fmt_output())
                &&& record.check_output.same_as(&self.check_output())
                &&& record.test_output.same_as(&self.test_output())
            },
            Action::Exhausted { step } => *step == self@.step,
            _ => true,
        }
    }

    /// An engine at step 1 with the tester's role and no step under way.
    pub fn new(kata_description: String, max_attempts: u32) -> (r: TddOrchestrator)
        ensures
            r.wf(),
            r@.role == Role::Tester,
            r@.step == 1,
            r@.max_attempts == max_attempts,
            r@.phase == Phase::Idle,
            r.kata() == kata_description@,
    {
        TddOrchestrator {
            kata_description,
            max_attempts,
            current_step: 1,
            current_role: Role::Tester,
            phase: Phase::Idle,
            attempt: 0,
            check_ok: false,
            test_ok: false,
            context: StepContext {
                role: Role::Tester,
                step_index: 1,
                kata_description: String::new(),
                git_last_commit_msg: String::new(),
                git_last_diff: String::new(),
                repo_snapshot_paths: Vec::new(),
            },
            plan: String::new(),
            result: StepResult::empty(),
            fmt_output: RunnerOutcome::passed(),
            check_output: RunnerOutcome::passed(),
            test_output: RunnerOutcome::passed(),
            commit_id: String::new(),
        }
    }

    pub fn current_role(&self) -> (r: Role)
        ensures
            r == self@.role,
    {
        self.current_role
    }

    pub fn current_step(&self) -> (r: u32)
        ensures
            r == self@.step,
    {
        self.current_step
    }

    pub fn max_attempts(&self) -> (r: u32)
        ensures
            r == self@.max_attempts,
    {
        self.max_attempts
    }

    pub fn phase(&self) -> (r: Phase)
        ensures
            r == self@.phase,
    {
        self.phase
    }

    /// Starts a step for the current role and step index. A step left under
    /// way (a collaborator failed) is dropped: it counts as never started.
    pub fn begin_step(&mut self) -> (r: Action)
        requires
            old(self).wf(),
            old(self)@.step < u32::MAX,
        ensures
            final(self).wf(),
            final(self)@ == begin(old(self)@),
            r is ReadState,
            Self::stores(old(self), final(self), &Event::PlanSaved),
    {
        self.phase = Phase::AwaitRepo;
        self.attempt = 0;
        self.check_ok = false;
        self.test_ok = false;
        Action::ReadState
    }

    /// Moves the counters on after a successful step.
    fn rotate_role(&mut self)
        requires
            old(self)@.step < u32::MAX,
        ensures
            final(self)@ == (EngineModel {
                role: crate::role::next_role(old(self)@.role),
                step: (old(self)@.step + 1) as u32,
                ..old(self)@
            }),
            Self::stores(old(self), final(self), &Event::PlanSaved),
    {
        self.current_role = self.current_role.next();
        self.current_step = self.current_step + 1;
    }

    /// One move of the engine on a collaborator's report.
    pub fn on_event(&mut self, event: Event) -> (r: Action)
        requires
            old(self).wf(),
        ensures
            final(self).wf(),
            (final(self)@, r.effect()) == transition(old(self)@, event.signal()),
            Self::stores(old(self), final(self), &event),
            final(self).carries(&r),
    {
        match event {
            Event::RepoRead(repo) => {
                if self.phase == Phase::AwaitRepo {
                    self.context = StepContext::build(
                        self.current_role,
                        self.current_step,
                        &self.kata_description,
                        repo,
                    );
                    self.phase = Phase::AwaitPlan;
                    Action::RequestPlan(self.context.duplicate())
                } else {
                    Action::Rejected
                }
            },
            Event::Planned(text) => {
                if self.phase == Phase::AwaitPlan {
                    self.plan = text;
                    self.phase = Phase::AwaitPlanSaved;
                    Action::SavePlan {
                        path: plan_file(self.current_step, self.current_role),
                        text: self.plan.clone(),
                    }
                } else {
                    Action::Rejected
                }
            },
            Event::PlanSaved => {
                if self.phase == Phase::AwaitPlanSaved {
                    self.phase = Phase::AwaitEdit;
                    self.attempt = 1;
                    Action::RequestEdit(self.context.duplicate())
                } else {
                    Action::Rejected
                }
            },
            Event::Edited(res) => {
                if self.phase == Phase::AwaitEdit {
                    self.result = res;
                    self.phase = Phase::AwaitFormat;
                    Action::RunFormat
                } else {
                    Action::Rejected
                }
            },
            Event::Formatted(o) => {
                if self.phase == Phase::AwaitFormat {
                    self.fmt_output = o;
                    self.phase = Phase::AwaitCheck;
                    Action::RunCheck
                } else {
                    Action::Rejected
                }
            },
            Event::Checked(o) => {
                if self.phase == Phase::AwaitCheck {
                    self.check_ok = o.ok;
                    self.check_output = o;
                    self.phase = Phase::AwaitTest;
                    Action::RunTest
                } else {
                    Action::Rejected
                }
            },
            Event::Tested(o) => {
                if self.phase == Phase::AwaitTest {
                    let ok = o.ok;
                    self.test_ok = ok;
                    self.test_output = o;
                    if judge(self.current_role, self.fmt_output.ok, self.check_ok, ok) {
                        self.phase = Phase::AwaitStaged;
                        Action::StageAll
                    } else {
                        self.phase = Phase::AwaitDiscard;
                        Action::Discard
                    }
                } else {
                    Action::Rejected
                }
            },
            Event::Discarded => {
                if self.phase == Phase::AwaitDiscard {
                    if self.attempt >= self.max_attempts {
                        self.phase = Phase::Idle;
                        Action::Exhausted { step: self.current_step }
                    } else {
                        self.attempt = self.attempt + 1;
                        self.phase = Phase::AwaitEdit;
                        Action::RequestEdit(self.context.duplicate())
                    }
                } else {
                    Action::Rejected
                }
            },
            Event::Staged => {
                if self.phase == Phase::AwaitStaged {
                    self.phase = Phase::AwaitCommit;
                    Action::Commit(commit_message(
                        &self.result.commit_message,
                        self.current_role,
                        self.current_step,
                        &self.result.notes,
                        &self.result.files_changed,
                        self.test_ok,
                    ))
                } else {
                    Action::Rejected
                }
            },
            Event::Committed(id) => {
                if self.phase == Phase::AwaitCommit {
                    self.commit_id = id;
                    self.phase = Phase::AwaitAudit;
                    let record = AuditRecord {
                        step: self.current_step,
                        role: self.current_role,
                        plan: self.plan.clone(),
                        attempts: self.attempt,
                        commit_id: self.commit_id.clone(),
                        fmt_output: self.fmt_output.duplicate(),
                        check_output: self.check_output.duplicate(),
                        test_output: self.test_output.duplicate(),
                    };
                    Action::SaveAudit { path: audit_file(self.current_step, self.current_role), record }
                } else {
                    Action::Rejected
                }
            },
            Event::AuditSaved => {
                if self.phase == Phase::AwaitAudit {
                    self.rotate_role();
                    self.phase = Phase::Idle;
                    Action::Advanced
                } else {
                    Action::Rejected
                }
            },
        }
    }
}

} // verus!
