use vstd::prelude::*;
use crate::role::next_role;
use crate::machine::{
    Effect, EngineModel, Phase, Signal, attempt_signals, begin, closing_signals, count,
    failed_attempts, opening_signals, role_succeeds, run, transition,
};

verus! {

/// Counting distributes over concatenation.
pub proof fn lemma_count_append(a: Seq<Effect>, b: Seq<Effect>, e: Effect)
    ensures
        count(a + b, e) == count(a, e) + count(b, e),
    decreases a.len(),
{
    if a.len() == 0 {
        assert(a + b =~= b);
    } else {
        assert((a + b).drop_first() =~= a.drop_first() + b);
        lemma_count_append(a.drop_first(), b, e);
    }
}

/// Driving the engine by `a + b` is driving it by `a`, then by `b`.
pub proof fn lemma_run_append(m: EngineModel, a: Seq<Signal>, b: Seq<Signal>)
    ensures
        run(m, a + b).0 == run(run(m, a).0, b).0,
        run(m, a + b).1 == run(m, a).1 + run(run(m, a).0, b).1,
    decreases a.len(),
{
    if a.len() == 0 {
        assert(a + b =~= b);
        assert(run(m, a).1 + run(m, b).1 =~= run(m, b).1);
    } else {
        assert((a + b).drop_first() =~= a.drop_first() + b);
        assert((a + b)[0] == a[0]);
        let m1 = transition(m, a[0]).0;
        lemma_run_append(m1, a.drop_first(), b);
        assert(run(m, a + b).1 =~= run(m, a).1 + run(run(m, a).0, b).1);
    }
}

pub proof fn lemma_failed_attempts_append(x: Seq<(bool, bool)>, y: Seq<(bool, bool)>)
    ensures
        failed_attempts(x + y) == failed_attempts(x) + failed_attempts(y),
    decreases x.len(),
{
    if x.len() == 0 {
        assert(x + y =~= y);
        assert(failed_attempts(x) + failed_attempts(y) =~= failed_attempts(y));
    } else {
        assert((x + y).drop_first() =~= x.drop_first() + y);
        assert((x + y)[0] == x[0]);
        lemma_failed_attempts_append(x.drop_first(), y);
        let blk = attempt_signals(x[0].0, x[0].1).push(Signal::Discarded);
        assert(blk + failed_attempts(x.drop_first() + y)
            =~= blk + failed_attempts(x.drop_first()) + failed_attempts(y));
    }
}

/// Unfolding the first report of a run.
proof fn lemma_run_step(m: EngineModel, sig: Signal, rest: Seq<Signal>)
    ensures
        run(m, seq![sig] + rest).0 == run(transition(m, sig).0, rest).0,
        run(m, seq![sig] + rest).1 == seq![transition(m, sig).1] + run(transition(m, sig).0, rest).1,
{
    let s = seq![sig] + rest;
    assert(s[0] == sig);
    assert(s.drop_first() =~= rest);
}

proof fn lemma_run_empty(m: EngineModel)
    ensures
        run(m, Seq::<Signal>::empty()) == (m, Seq::<Effect>::empty()),
{
}

/// One attempt, from the edit to the verdict of the test check.
proof fn lemma_run_checks(m: EngineModel, c: bool, t: bool)
    requires
        m.phase == Phase::AwaitEdit,
    ensures
        ({
            let (m2, es) = run(m, attempt_signals(c, t));
            let ok = role_succeeds(m.role, c, t);
            &&& m2 == EngineModel {
                phase: if ok { Phase::AwaitStaged } else { Phase::AwaitDiscard },
                check_ok: c,
                test_ok: t,
                ..m
            }
            &&& es == seq![Effect::RunFormat, Effect::RunCheck, Effect::RunTest,
                if ok { Effect::StageAll } else { Effect::Discard }]
        }),
{
    let e = Seq::<Signal>::empty();
    let s4 = seq![Signal::Tested(t)] + e;
    let s3 = seq![Signal::Checked(c)] + s4;
    let s2 = seq![Signal::Formatted] + s3;
    let s1 = seq![Signal::Edited] + s2;
    assert(s1 =~= attempt_signals(c, t));
    let m1 = m.with_phase(Phase::AwaitFormat);
    let m2 = m.with_phase(Phase::AwaitCheck);
    let m3 = EngineModel { phase: Phase::AwaitTest, check_ok: c, ..m };
    let m4 = transition(m3, Signal::Tested(t)).0;
    lemma_run_empty(m4);
    lemma_run_step(m3, Signal::Tested(t), e);
    lemma_run_step(m2, Signal::Checked(c), s4);
    lemma_run_step(m1, Signal::Formatted, s3);
    lemma_run_step(m, Signal::Edited, s2);
    assert(run(m, s1).1 =~= seq![Effect::RunFormat, Effect::RunCheck, Effect::RunTest,
        transition(m3, Signal::Tested(t)).1]);
}

proof fn lemma_count_cons(x: Effect, rest: Seq<Effect>, e: Effect)
    ensures
        count(seq![x] + rest, e) == (if x == e { 1nat } else { 0nat }) + count(rest, e),
{
    let s = seq![x] + rest;
    assert(s[0] == x);
    assert(s.drop_first() =~= rest);
}

/// Counts in a four-effect sequence.
proof fn lemma_count4(a: Effect, b: Effect, c: Effect, d: Effect, e: Effect)
    ensures
        count(seq![a, b, c, d], e) == (if a == e { 1nat } else { 0nat })
            + (if b == e { 1nat } else { 0nat }) + (if c == e { 1nat } else { 0nat })
            + (if d == e { 1nat } else { 0nat }),
{
    let z = Seq::<Effect>::empty();
    assert(seq![a, b, c, d] =~= seq![a] + (seq![b] + (seq![c] + (seq![d] + z))));
    lemma_count_cons(d, z, e);
    lemma_count_cons(c, seq![d] + z, e);
    lemma_count_cons(b, seq![c] + (seq![d] + z), e);
    lemma_count_cons(a, seq![b] + (seq![c] + (seq![d] + z)), e);
}

proof fn lemma_count1(a: Effect, e: Effect)
    ensures
        count(seq![a], e) == (if a == e { 1nat } else { 0nat }),
{
    lemma_count_cons(a, Seq::<Effect>::empty(), e);
    assert(seq![a] + Seq::<Effect>::empty() =~= seq![a]);
}

/// The effects that a failed attempt below the bound asks for, once each.
pub open spec fn retry_effect(e: Effect) -> bool {
    e == Effect::RunFormat || e == Effect::RunCheck || e == Effect::RunTest || e == Effect::Discard
        || e == Effect::RequestEdit
}

/// The effects of one failed attempt: the three checks, one rollback, and
/// then either the next edit or the end of the step.
proof fn lemma_run_failed_attempt(m: EngineModel, c: bool, t: bool)
    requires
        m.phase == Phase::AwaitEdit,
        !role_succeeds(m.role, c, t),
    ensures
        ({
            let (m2, es) = run(m, attempt_signals(c, t).push(Signal::Discarded));
            let last = m.attempt >= m.max_attempts;
            &&& m2 == EngineModel {
                phase: if last { Phase::Idle } else { Phase::AwaitEdit },
                attempt: if last { m.attempt } else { (m.attempt + 1) as u32 },
                check_ok: c,
                test_ok: t,
                ..m
            }
            &&& es == seq![Effect::RunFormat, Effect::RunCheck, Effect::RunTest, Effect::Discard]
                + seq![if last { Effect::Exhausted } else { Effect::RequestEdit }]
        }),
{
    let a = attempt_signals(c, t);
    let d = seq![Signal::Discarded];
    assert(a.push(Signal::Discarded) =~= a + d);
    lemma_run_checks(m, c, t);
    lemma_run_append(m, a, d);
    let m1 = run(m, a).0;
    lemma_run_step(m1, Signal::Discarded, Seq::<Signal>::empty());
    assert(seq![Signal::Discarded] + Seq::<Signal>::empty() =~= d);
    lemma_run_empty(transition(m1, Signal::Discarded).0);
    assert(run(m1, d).1 =~= seq![transition(m1, Signal::Discarded).1]);
}

/// Failed attempts that stay under the bound: each ends in exactly one
/// rollback and a fresh edit; nothing is committed and the counters stay.
proof fn lemma_run_retries(m: EngineModel, fails: Seq<(bool, bool)>)
    requires
        m.phase == Phase::AwaitEdit,
        1 <= m.attempt,
        m.attempt + fails.len() <= m.max_attempts,
        forall|i: int| 0 <= i < fails.len() ==> !role_succeeds(m.role, #[trigger] fails[i].0, fails[i].1),
    ensures
        ({
            let (m2, es) = run(m, failed_attempts(fails));
            &&& m2.phase == Phase::AwaitEdit
            &&& m2.role == m.role
            &&& m2.step == m.step
            &&& m2.max_attempts == m.max_attempts
            &&& m2.attempt == m.attempt + fails.len()
            &&& forall|e: Effect| #[trigger] count(es, e) == (if retry_effect(e) { fails.len() } else { 0 })
        }),
    decreases fails.len(),
{
    if fails.len() == 0 {
        lemma_run_empty(m);
    } else {
        let (c, t) = fails[0];
        let blk = attempt_signals(c, t).push(Signal::Discarded);
        let rest = fails.drop_first();
        lemma_run_failed_attempt(m, c, t);
        lemma_run_append(m, blk, failed_attempts(rest));
        let m1 = run(m, blk).0;
        assert forall|i: int| 0 <= i < rest.len() implies !role_succeeds(m1.role, #[trigger] rest[i].0, rest[i].1) by {
            assert(rest[i] == fails[i + 1]);
        }
        lemma_run_retries(m1, rest);
        let e1 = seq![Effect::RunFormat, Effect::RunCheck, Effect::RunTest, Effect::Discard];
        let e2 = seq![Effect::RequestEdit];
        let es2 = run(m1, failed_attempts(rest)).1;
        assert(run(m, failed_attempts(fails)).1 == e1 + e2 + es2);
        assert forall|e: Effect| #[trigger] count(e1 + e2 + es2, e) == (if retry_effect(e) { fails.len() } else { 0 }) by {
            lemma_count_append(e1 + e2, es2, e);
            lemma_count_append(e1, e2, e);
            lemma_count4(Effect::RunFormat, Effect::RunCheck, Effect::RunTest, Effect::Discard, e);
            lemma_count1(Effect::RequestEdit, e);
        }
    }
}

proof fn lemma_run_opening(m: EngineModel)
    requires
        m.phase == Phase::AwaitRepo,
    ensures
        run(m, opening_signals()).0 == (EngineModel { phase: Phase::AwaitEdit, attempt: 1, ..m }),
        run(m, opening_signals()).1 == seq![Effect::RequestPlan, Effect::SavePlan, Effect::RequestEdit],
{
    let z = Seq::<Signal>::empty();
    let s3 = seq![Signal::PlanSaved] + z;
    let s2 = seq![Signal::Planned] + s3;
    let s1 = seq![Signal::RepoRead] + s2;
    assert(s1 =~= opening_signals());
    let m1 = m.with_phase(Phase::AwaitPlan);
    let m2 = m.with_phase(Phase::AwaitPlanSaved);
    lemma_run_empty(EngineModel { phase: Phase::AwaitEdit, attempt: 1, ..m });
    lemma_run_step(m2, Signal::PlanSaved, z);
    lemma_run_step(m1, Signal::Planned, s3);
    lemma_run_step(m, Signal::RepoRead, s2);
    assert(run(m, s1).1 =~= seq![Effect::RequestPlan, Effect::SavePlan, Effect::RequestEdit]);
}

proof fn lemma_run_closing(m: EngineModel)
    requires
        m.phase == Phase::AwaitStaged,
    ensures
        run(m, closing_signals()).0 == (EngineModel {
            phase: Phase::Idle,
            role: next_role(m.role),
            step: (m.step + 1) as u32,
            ..m
        }),
        run(m, closing_signals()).1 == seq![Effect::Commit, Effect::SaveAudit(m.attempt), Effect::Advanced],
{
    let z = Seq::<Signal>::empty();
    let s3 = seq![Signal::AuditSaved] + z;
    let s2 = seq![Signal::Committed] + s3;
    let s1 = seq![Signal::Staged] + s2;
    assert(s1 =~= closing_signals());
    let m1 = m.with_phase(Phase::AwaitCommit);
    let m2 = m.with_phase(Phase::AwaitAudit);
    lemma_run_empty(transition(m2, Signal::AuditSaved).0);
    lemma_run_step(m2, Signal::AuditSaved, z);
    lemma_run_step(m1, Signal::Committed, s3);
    lemma_run_step(m, Signal::Staged, s2);
    assert(run(m, s1).1 =~= seq![Effect::Commit, Effect::SaveAudit(m.attempt), Effect::Advanced]);
}

/// Every move of the engine keeps its state well formed.
pub proof fn lemma_transition_wf(m: EngineModel, s: Signal)
    requires
        m.wf(),
    ensures
        transition(m, s).0.wf(),
{
}

/// The counters change only when a step succeeds, and then the role moves
/// exactly one position along the cycle and the step index grows by one.
pub proof fn law_counters_move_only_on_success(m: EngineModel, s: Signal)
    requires
        m.wf(),
    ensures
        ({
            let (m2, e) = transition(m, s);
            &&& (m2.role != m.role || m2.step != m.step) <==> e == Effect::Advanced
            &&& e == Effect::Advanced ==> m2.role == next_role(m.role) && m2.step == m.step + 1
        }),
{
    crate::role::lemma_cycle_has_period_three(m.role);
}

/// A failed attempt below the bound asks for exactly one rollback; until the
/// rollback is reported nothing else is accepted, and only then does the next
/// attempt begin.
pub proof fn law_failed_attempt_rolls_back_once(m: EngineModel, test_ok: bool)
    requires
        m.wf(),
        m.phase == Phase::AwaitTest,
        !role_succeeds(m.role, m.check_ok, test_ok),
        m.attempt < m.max_attempts,
    ensures
        ({
            let (m1, e1) = transition(m, Signal::Tested(test_ok));
            let (m2, e2) = transition(m1, Signal::Discarded);
            &&& e1 == Effect::Discard
            &&& m1.phase == Phase::AwaitDiscard
            &&& forall|s: Signal| s != Signal::Discarded ==> #[trigger] transition(m1, s) == (m1, Effect::Rejected)
            &&& e2 == Effect::RequestEdit
            &&& m2.phase == Phase::AwaitEdit
            &&& m2.attempt == m.attempt + 1
            &&& m2.role == m.role && m2.step == m.step
        }),
{
}

proof fn lemma_counts_in_exhausted_run(e0: Seq<Effect>, e1: Seq<Effect>, ea: Seq<Effect>, eb: Seq<Effect>, k: Effect)
    requires
        e0 == seq![Effect::RequestPlan] + (seq![Effect::SavePlan] + seq![Effect::RequestEdit]),
        ea == seq![Effect::RunFormat, Effect::RunCheck, Effect::RunTest, Effect::Discard],
        eb == seq![Effect::Exhausted],
    ensures
        count(e0 + (e1 + (ea + eb)), k) == count(e0, k) + count(e1, k) + count(ea, k) + count(eb, k),
        count(e0, k) == (if k == Effect::RequestPlan || k == Effect::SavePlan || k == Effect::RequestEdit { 1nat } else { 0nat }),
        count(ea, k) == (if k == Effect::RunFormat || k == Effect::RunCheck || k == Effect::RunTest || k == Effect::Discard { 1nat } else { 0nat }),
        count(eb, k) == (if k == Effect::Exhausted { 1nat } else { 0nat }),
{
    lemma_count_append(e0, e1 + (ea + eb), k);
    lemma_count_append(e1, ea + eb, k);
    lemma_count_append(ea, eb, k);
    lemma_count4(Effect::RunFormat, Effect::RunCheck, Effect::RunTest, Effect::Discard, k);
    lemma_count1(Effect::Exhausted, k);
    lemma_count1(Effect::RequestPlan, k);
    lemma_count1(Effect::SavePlan, k);
    lemma_count1(Effect::RequestEdit, k);
    lemma_count_append(seq![Effect::RequestPlan], seq![Effect::SavePlan] + seq![Effect::RequestEdit], k);
    lemma_count_append(seq![Effect::SavePlan], seq![Effect::RequestEdit], k);
}

/// After `max_attempts` failed attempts the step ends in exhaustion: exactly
/// `max_attempts` rollbacks, no commit, and role and step as they were.
pub proof fn law_exhaustion(m: EngineModel, fails: Seq<(bool, bool)>)
    requires
        m.step < u32::MAX,
        m.max_attempts >= 1,
        fails.len() == m.max_attempts,
        forall|i: int| 0 <= i < fails.len() ==> !role_succeeds(m.role, #[trigger] fails[i].0, fails[i].1),
    ensures
        ({
            let (mf, es) = run(begin(m), opening_signals() + failed_attempts(fails));
            &&& mf.phase == Phase::Idle
            &&& mf.role == m.role
            &&& mf.step == m.step
            &&& es.last() == Effect::Exhausted
            &&& count(es, Effect::Discard) == m.max_attempts
            &&& count(es, Effect::Commit) == 0
            &&& count(es, Effect::Advanced) == 0
        }),
{
    let m0 = begin(m);
    let n = fails.len() - 1;
    let head = fails.take(n as int);
    let tail = seq![fails[n as int]];
    assert(head + tail =~= fails);
    lemma_failed_attempts_append(head, tail);
    lemma_run_opening(m0);
    let m1 = run(m0, opening_signals()).0;
    lemma_run_append(m0, opening_signals(), failed_attempts(fails));
    lemma_run_append(m1, failed_attempts(head), failed_attempts(tail));
    assert forall|i: int| 0 <= i < head.len() implies !role_succeeds(m1.role, #[trigger] head[i].0, head[i].1) by {
        assert(head[i] == fails[i]);
    }
    lemma_run_retries(m1, head);
    let m2 = run(m1, failed_attempts(head)).0;
    let (c, t) = fails[n as int];
    let blk = attempt_signals(c, t).push(Signal::Discarded);
    assert(tail.drop_first() =~= Seq::<(bool, bool)>::empty());
    assert(tail[0] == fails[n as int]);
    assert(failed_attempts(tail.drop_first()) == Seq::<Signal>::empty());
    assert(failed_attempts(tail) == blk + Seq::<Signal>::empty());
    assert(failed_attempts(tail) =~= blk);
    lemma_run_failed_attempt(m2, c, t);
    let e0 = run(m0, opening_signals()).1;
    let e1 = run(m1, failed_attempts(head)).1;
    let e2 = run(m2, blk).1;
    let ea = seq![Effect::RunFormat, Effect::RunCheck, Effect::RunTest, Effect::Discard];
    let eb = seq![Effect::Exhausted];
    let es = run(m0, opening_signals() + failed_attempts(fails)).1;
    assert(es == e0 + (e1 + e2));
    assert(e2 == ea + eb);
    assert(es == e0 + (e1 + (ea + eb)));
    assert(es.last() == Effect::Exhausted);
    assert(e0 =~= seq![Effect::RequestPlan] + (seq![Effect::SavePlan] + seq![Effect::RequestEdit]));
    assert(count(e1, Effect::Discard) == head.len());
    assert(count(e1, Effect::Commit) == 0);
    assert(count(e1, Effect::Advanced) == 0);
    lemma_counts_in_exhausted_run(e0, e1, ea, eb, Effect::Discard);
    lemma_counts_in_exhausted_run(e0, e1, ea, eb, Effect::Commit);
    lemma_counts_in_exhausted_run(e0, e1, ea, eb, Effect::Advanced);
    assert(count(es, Effect::Discard) == m.max_attempts);
    assert(count(es, Effect::Commit) == 0);
    assert(run(m0, opening_signals() + failed_attempts(fails)).0 == run(m2, blk).0);
}

proof fn lemma_counts_in_successful_run(e0: Seq<Effect>, e1: Seq<Effect>, ec: Seq<Effect>, ed: Seq<Effect>, k: Effect)
    requires
        e0 == seq![Effect::RequestPlan] + (seq![Effect::SavePlan] + seq![Effect::RequestEdit]),
        ec == seq![Effect::RunFormat, Effect::RunCheck, Effect::RunTest, Effect::StageAll],
        ed == seq![Effect::Commit] + (seq![ed[1]] + seq![Effect::Advanced]),
    ensures
        count(e0 + (e1 + (ec + ed)), k) == count(e0, k) + count(e1, k) + count(ec, k) + count(ed, k),
        count(e0, k) == (if k == Effect::RequestPlan || k == Effect::SavePlan || k == Effect::RequestEdit { 1nat } else { 0nat }),
        count(ec, k) == (if k == Effect::RunFormat || k == Effect::RunCheck || k == Effect::RunTest || k == Effect::StageAll { 1nat } else { 0nat }),
        count(ed, k) == (if k == Effect::Commit { 1nat } else { 0nat }) + (if k == ed[1] { 1nat } else { 0nat })
            + (if k == Effect::Advanced { 1nat } else { 0nat }),
{
    lemma_count_append(e0, e1 + (ec + ed), k);
    lemma_count_append(e1, ec + ed, k);
    lemma_count_append(ec, ed, k);
    lemma_count4(Effect::RunFormat, Effect::RunCheck, Effect::RunTest, Effect::StageAll, k);
    lemma_count1(Effect::RequestPlan, k);
    lemma_count1(Effect::SavePlan, k);
    lemma_count1(Effect::RequestEdit, k);
    lemma_count_append(seq![Effect::RequestPlan], seq![Effect::SavePlan] + seq![Effect::RequestEdit], k);
    lemma_count_append(seq![Effect::SavePlan], seq![Effect::RequestEdit], k);
    lemma_count1(Effect::Commit, k);
    lemma_count1(ed[1], k);
    lemma_count1(Effect::Advanced, k);
    lemma_count_append(seq![Effect::Commit], seq![ed[1]] + seq![Effect::Advanced], k);
    lemma_count_append(seq![ed[1]], seq![Effect::Advanced], k);
}

/// A step whose attempt number `fails.len() + 1` succeeds after `fails.len()`
/// failed ones asks for exactly one commit and one rollback per failed
/// attempt; its audit record carries that attempt number; role and step then
/// move one position.
pub proof fn law_success_commits_once(m: EngineModel, fails: Seq<(bool, bool)>, check_ok: bool, test_ok: bool)
    requires
        m.step < u32::MAX,
        fails.len() == 0 || fails.len() < m.max_attempts,
        forall|i: int| 0 <= i < fails.len() ==> !role_succeeds(m.role, #[trigger] fails[i].0, fails[i].1),
        role_succeeds(m.role, check_ok, test_ok),
    ensures
        ({
            let signals = opening_signals() + failed_attempts(fails)
                + (attempt_signals(check_ok, test_ok) + closing_signals());
            let (mf, es) = run(begin(m), signals);
            let audit = Effect::SaveAudit((fails.len() + 1) as u32);
            &&& mf.phase == Phase::Idle
            &&& mf.role == next_role(m.role)
            &&& mf.step == m.step + 1
            &&& es.last() == Effect::Advanced
            &&& es[es.len() - 2] == audit
            &&& count(es, audit) == 1
            &&& count(es, Effect::Commit) == 1
            &&& count(es, Effect::Discard) == fails.len()
            &&& count(es, Effect::Exhausted) == 0
        }),
{
    let m0 = begin(m);
    let tail = attempt_signals(check_ok, test_ok) + closing_signals();
    lemma_run_opening(m0);
    let m1 = run(m0, opening_signals()).0;
    lemma_run_append(m0, opening_signals() + failed_attempts(fails), tail);
    lemma_run_append(m0, opening_signals(), failed_attempts(fails));
    if fails.len() == 0 {
        assert(failed_attempts(fails) == Seq::<Signal>::empty());
        lemma_run_empty(m1);
    } else {
        lemma_run_retries(m1, fails);
    }
    let m2 = run(m1, failed_attempts(fails)).0;
    assert(m2.attempt == fails.len() + 1);
    lemma_run_checks(m2, check_ok, test_ok);
    lemma_run_append(m2, attempt_signals(check_ok, test_ok), closing_signals());
    let m3 = run(m2, attempt_signals(check_ok, test_ok)).0;
    lemma_run_closing(m3);
    let e0 = run(m0, opening_signals()).1;
    let e1 = run(m1, failed_attempts(fails)).1;
    let ec = run(m2, attempt_signals(check_ok, test_ok)).1;
    let ed = run(m3, closing_signals()).1;
    let es = run(m0, opening_signals() + failed_attempts(fails) + tail).1;
    assert(es == e0 + (e1 + (ec + ed)));
    let audit = Effect::SaveAudit((fails.len() + 1) as u32);
    assert(ed =~= seq![Effect::Commit] + (seq![audit] + seq![Effect::Advanced]));
    assert(e0 =~= seq![Effect::RequestPlan] + (seq![Effect::SavePlan] + seq![Effect::RequestEdit]));
    assert(es.last() == Effect::Advanced);
    assert(es[es.len() - 2] == audit);
    assert(forall|e: Effect| #[trigger] count(e1, e) == (if retry_effect(e) { fails.len() } else { 0 }));
    lemma_counts_in_successful_run(e0, e1, ec, ed, audit);
    lemma_counts_in_successful_run(e0, e1, ec, ed, Effect::Commit);
    lemma_counts_in_successful_run(e0, e1, ec, ed, Effect::Discard);
    lemma_counts_in_successful_run(e0, e1, ec, ed, Effect::Exhausted);
}

} // verus!
