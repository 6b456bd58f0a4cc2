use tdd_machine::machine::Phase;
use tdd_machine::orchestrator::{Action, Event, TddOrchestrator};
use tdd_machine::role::Role;
use tdd_machine::types::{AuditRecord, RepoState, RunnerOutcome, StepContext, StepResult};

#[derive(Default)]
struct Log {
    commits: Vec<String>,
    discards: usize,
    plans: Vec<(String, String)>,
    audits: Vec<(String, AuditRecord)>,
    edit_contexts: Vec<StepContext>,
    stages: usize,
    checks_run: Vec<&'static str>,
}

fn outcome(ok: bool) -> RunnerOutcome {
    RunnerOutcome { ok, stdout: String::new(), stderr: String::new() }
}

/// Runs one step against mock collaborators; `verdict(attempt)` gives the
/// static-check and test outcomes of each 1-based attempt.
fn drive(o: &mut TddOrchestrator, verdict: &dyn Fn(usize) -> (bool, bool), log: &mut Log) -> Action {
    let mut action = o.begin_step();
    let mut attempt = 0usize;
    loop {
        let event = match action {
            Action::ReadState => Event::RepoRead(RepoState {
                last_commit_message: "initial".to_string(),
                last_diff: String::new(),
                files: vec![],
            }),
            Action::RequestPlan(ctx) => Event::Planned(format!("Plan for {:?}", ctx.role)),
            Action::SavePlan { path, text } => {
                log.plans.push((path, text));
                Event::PlanSaved
            }
            Action::RequestEdit(ctx) => {
                attempt += 1;
                let role = ctx.role;
                log.edit_contexts.push(ctx);
                Event::Edited(StepResult {
                    files_changed: vec!["test.rs".to_string()],
                    commit_message: format!("test: add test for {:?}", role),
                    notes: "notes".to_string(),
                })
            }
            Action::RunFormat => {
                log.checks_run.push("fmt");
                Event::Formatted(outcome(true))
            }
            Action::RunCheck => {
                log.checks_run.push("check");
                Event::Checked(outcome(verdict(attempt).0))
            }
            Action::RunTest => {
                log.checks_run.push("test");
                Event::Tested(outcome(verdict(attempt).1))
            }
            Action::StageAll => {
                log.stages += 1;
                Event::Staged
            }
            Action::Commit(msg) => {
                log.commits.push(msg);
                Event::Committed("commit-hash".to_string())
            }
            Action::SaveAudit { path, record } => {
                log.audits.push((path, record));
                Event::AuditSaved
            }
            Action::Discard => {
                log.discards += 1;
                Event::Discarded
            }
            other => return other,
        };
        action = o.on_event(event);
    }
}

fn engine_at(role: Role) -> TddOrchestrator {
    let mut o = TddOrchestrator::new("kata".to_string(), 3);
    let mut log = Log::default();
    let pass = |_: usize| (true, true);
    let red = |_: usize| (true, false);
    while o.current_role() != role {
        let v: &dyn Fn(usize) -> (bool, bool) = if o.current_role() == Role::Tester { &red } else { &pass };
        assert!(matches!(drive(&mut o, v, &mut log), Action::Advanced));
    }
    o
}

#[test]
fn test_orchestrator_tester_step() {
    let mut orchestrator = TddOrchestrator::new("kata".to_string(), 3);
    assert_eq!(orchestrator.current_role(), Role::Tester);
    let mut log = Log::default();
    let result = drive(&mut orchestrator, &|_| (true, false), &mut log);
    assert!(matches!(result, Action::Advanced));
    assert_eq!(orchestrator.current_role(), Role::Implementor);
    assert_eq!(log.commits.len(), 1);
    assert!(log.commits[0].contains("test: add test"));
}

#[test]
fn tester_red_succeeds_on_first_attempt() {
    let mut o = TddOrchestrator::new("kata".to_string(), 3);
    let mut log = Log::default();
    let result = drive(&mut o, &|_| (true, false), &mut log);
    assert!(matches!(result, Action::Advanced));
    assert_eq!(log.commits.len(), 1);
    assert_eq!(log.discards, 0);
    assert_eq!(o.current_role(), Role::Implementor);
    assert_eq!(o.current_step(), 2);
    assert_eq!(log.audits[0].1.attempts, 1);
    assert_eq!(o.phase(), Phase::Idle);
}

#[test]
fn implementor_failing_tests_exhaust_attempts() {
    let mut o = engine_at(Role::Implementor);
    let step = o.current_step();
    let mut log = Log::default();
    let result = drive(&mut o, &|_| (true, false), &mut log);
    match result {
        Action::Exhausted { step: s } => assert_eq!(s, step),
        other => panic!("unexpected {:?}", other),
    }
    assert_eq!(log.commits.len(), 0);
    assert_eq!(log.discards, 3);
    assert_eq!(log.stages, 0);
    assert_eq!(o.current_role(), Role::Implementor);
    assert_eq!(o.current_step(), step);
}

#[test]
fn tester_with_passing_test_is_rolled_back_and_retried() {
    let mut o = TddOrchestrator::new("kata".to_string(), 3);
    let mut log = Log::default();
    let result = drive(&mut o, &|a| if a == 1 { (true, true) } else { (true, false) }, &mut log);
    assert!(matches!(result, Action::Advanced));
    assert_eq!(log.discards, 1);
    assert_eq!(log.commits.len(), 1);
    assert_eq!(log.audits[0].1.attempts, 2);
    assert_eq!(log.edit_contexts.len(), 2);

    let mut o = TddOrchestrator::new("kata".to_string(), 3);
    let mut log = Log::default();
    let result = drive(&mut o, &|_| (true, true), &mut log);
    assert!(matches!(result, Action::Exhausted { step: 1 }));
    assert_eq!(log.discards, 3);
    assert_eq!(log.commits.len(), 0);
    assert_eq!(o.current_role(), Role::Tester);
}

#[test]
fn refactorer_static_failure_always_exhausts() {
    for test_ok in [true, false] {
        let mut o = engine_at(Role::Refactorer);
        let mut log = Log::default();
        let result = drive(&mut o, &move |_| (false, test_ok), &mut log);
        assert!(matches!(result, Action::Exhausted { step: 3 }));
        assert_eq!(log.discards, 3);
        assert_eq!(log.commits.len(), 0);
        assert_eq!(o.current_role(), Role::Refactorer);
        assert_eq!(o.current_step(), 3);
    }
}

#[test]
fn full_cycle_returns_to_tester() {
    let o = engine_at(Role::Refactorer);
    assert_eq!(o.current_step(), 3);
    let mut o = o;
    let mut log = Log::default();
    assert!(matches!(drive(&mut o, &|_| (true, true), &mut log), Action::Advanced));
    assert_eq!(o.current_role(), Role::Tester);
    assert_eq!(o.current_step(), 4);
}

#[test]
fn success_on_last_attempt_records_its_number() {
    let mut o = engine_at(Role::Implementor);
    let mut log = Log::default();
    let result = drive(&mut o, &|a| (true, a == 3), &mut log);
    assert!(matches!(result, Action::Advanced));
    assert_eq!(log.discards, 2);
    assert_eq!(log.commits.len(), 1);
    let (path, record) = &log.audits[0];
    assert_eq!(path, ".tdd/logs/step-2-implementor.json");
    assert_eq!(record.attempts, 3);
    assert_eq!(record.step, 2);
    assert_eq!(record.role, Role::Implementor);
    assert_eq!(record.commit_id, "commit-hash");
    assert_eq!(record.plan, "Plan for Implementor");
    assert!(record.test_output.ok);
}

#[test]
fn all_three_checks_run_in_order_every_attempt() {
    let mut o = TddOrchestrator::new("kata".to_string(), 2);
    let mut log = Log::default();
    drive(&mut o, &|_| (false, false), &mut log);
    assert_eq!(log.checks_run, vec!["fmt", "check", "test", "fmt", "check", "test"]);
}

#[test]
fn context_is_captured_once_per_step() {
    let mut o = TddOrchestrator::new("kata".to_string(), 3);
    let mut log = Log::default();
    drive(&mut o, &|a| (true, a != 3), &mut log);
    assert_eq!(log.edit_contexts.len(), 3);
    for c in &log.edit_contexts {
        assert_eq!(c.role, Role::Tester);
        assert_eq!(c.step_index, 1);
        assert_eq!(c.kata_description, "kata");
        assert_eq!(c.git_last_commit_msg, "initial");
        assert!(c.repo_snapshot_paths.is_empty());
    }
}

#[test]
fn plan_is_saved_under_step_and_role() {
    let mut o = TddOrchestrator::new("kata".to_string(), 3);
    let mut log = Log::default();
    drive(&mut o, &|_| (true, false), &mut log);
    assert_eq!(log.plans, vec![(".tdd/plan/step-1-tester.md".to_string(), "Plan for Tester".to_string())]);
}

#[test]
fn commit_message_lists_context_and_verdict() {
    let mut o = TddOrchestrator::new("kata".to_string(), 3);
    let mut log = Log::default();
    drive(&mut o, &|_| (true, false), &mut log);
    assert_eq!(
        log.commits[0],
        "test: add test for Tester\n\nContext:\n- Role: Tester\n- Step: 1\n- Kata goal: ...\n\nRationale:\nnotes\n\nDiff summary:\n[\"test.rs\"]\n\nVerification:\nTests: FAIL"
    );
    let mut log = Log::default();
    drive(&mut o, &|_| (true, true), &mut log);
    assert!(log.commits[0].ends_with("- Step: 2\n- Kata goal: ...\n\nRationale:\nnotes\n\nDiff summary:\n[\"test.rs\"]\n\nVerification:\nTests: PASS"));
    assert!(log.commits[0].contains("- Role: Implementor"));
}

#[test]
fn format_failure_does_not_gate_success() {
    let mut o = TddOrchestrator::new("kata".to_string(), 3);
    o.begin_step();
    o.on_event(Event::RepoRead(RepoState { last_commit_message: String::new(), last_diff: String::new(), files: vec![] }));
    o.on_event(Event::Planned("p".to_string()));
    o.on_event(Event::PlanSaved);
    o.on_event(Event::Edited(StepResult { files_changed: vec![], commit_message: "m".to_string(), notes: String::new() }));
    assert!(matches!(o.on_event(Event::Formatted(outcome(false))), Action::RunCheck));
    assert!(matches!(o.on_event(Event::Checked(outcome(true))), Action::RunTest));
    assert!(matches!(o.on_event(Event::Tested(outcome(false))), Action::StageAll));
}

#[test]
fn reports_out_of_phase_are_rejected() {
    let mut o = TddOrchestrator::new("kata".to_string(), 3);
    assert!(matches!(o.on_event(Event::Staged), Action::Rejected));
    assert!(matches!(o.begin_step(), Action::ReadState));
    assert!(matches!(o.on_event(Event::PlanSaved), Action::Rejected));
    assert!(matches!(o.on_event(Event::AuditSaved), Action::Rejected));
    assert_eq!(o.phase(), Phase::AwaitRepo);
    assert_eq!(o.current_role(), Role::Tester);
    assert_eq!(o.current_step(), 1);
}

#[test]
fn restarting_a_step_keeps_counters() {
    let mut o = TddOrchestrator::new("kata".to_string(), 3);
    o.begin_step();
    o.on_event(Event::RepoRead(RepoState { last_commit_message: String::new(), last_diff: String::new(), files: vec![] }));
    assert!(matches!(o.begin_step(), Action::ReadState));
    assert_eq!(o.current_step(), 1);
    assert_eq!(o.current_role(), Role::Tester);
}

#[test]
fn zero_max_attempts_still_makes_one_attempt() {
    let mut o = TddOrchestrator::new("kata".to_string(), 0);
    let mut log = Log::default();
    assert!(matches!(drive(&mut o, &|_| (false, false), &mut log), Action::Exhausted { step: 1 }));
    assert_eq!(log.discards, 1);
    assert_eq!(log.edit_contexts.len(), 1);
}
