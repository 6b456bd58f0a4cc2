use tdd_machine::gateway::{CheckKind, GitVcs, ProcessRunner, TreeEntry, is_snapshot_path, snapshot_paths, split_command};
use tdd_machine::llm::{
    EditPlan, FileEdit, chat_url, clean_response, strip_fences, file_section, is_upsert, normalize_base_url, step_result_of, user_prompt,
};
use tdd_machine::machine::judge;
use tdd_machine::role::{Role, select_by_role};
use tdd_machine::text::{audit_file, commit_message, plan_file};
use tdd_machine::types::StepContext;

fn strings(v: &[&str]) -> Vec<String> {
    v.iter().map(|s| s.to_string()).collect()
}

#[test]
fn role_names_and_cycle() {
    assert_eq!(Role::Tester.as_str(), "tester");
    assert_eq!(Role::Implementor.as_str(), "implementor");
    assert_eq!(Role::Refactorer.as_str(), "refactorer");
    assert_eq!(Role::Tester.next(), Role::Implementor);
    assert_eq!(Role::Implementor.next(), Role::Refactorer);
    assert_eq!(Role::Refactorer.next(), Role::Tester);
    assert_eq!(Role::Refactorer.title(), "Refactorer");
}

#[test]
fn judgment_table() {
    for fmt in [true, false] {
        for check in [true, false] {
            for test in [true, false] {
                assert_eq!(judge(Role::Tester, fmt, check, test), check && !test);
                assert_eq!(judge(Role::Implementor, fmt, check, test), check && test);
                assert_eq!(judge(Role::Refactorer, fmt, check, test), check && test);
            }
        }
    }
}

#[test]
fn select_picks_the_roles_value() {
    assert_eq!(*select_by_role(Role::Tester, &1, &2, &3), 1);
    assert_eq!(*select_by_role(Role::Implementor, &1, &2, &3), 2);
    assert_eq!(*select_by_role(Role::Refactorer, &1, &2, &3), 3);
}

#[test]
fn artifact_paths() {
    assert_eq!(plan_file(1, Role::Tester), ".tdd/plan/step-1-tester.md");
    assert_eq!(plan_file(120, Role::Refactorer), ".tdd/plan/step-120-refactorer.md");
    assert_eq!(audit_file(7, Role::Implementor), ".tdd/logs/step-7-implementor.json");
    assert_eq!(audit_file(u32::MAX, Role::Tester), ".tdd/logs/step-4294967295-tester.json");
}

#[test]
fn commit_message_escapes_file_names() {
    let m = commit_message(
        &"feat: x".to_string(),
        Role::Refactorer,
        10,
        &"why".to_string(),
        &strings(&["a \"b\".rs", "c.rs"]),
        true,
    );
    assert_eq!(
        m,
        "feat: x\n\nContext:\n- Role: Refactorer\n- Step: 10\n- Kata goal: ...\n\nRationale:\nwhy\n\nDiff summary:\n[\"a \\\"b\\\".rs\", \"c.rs\"]\n\nVerification:\nTests: PASS"
    );
}

#[test]
fn snapshot_excludes_git_and_target() {
    assert!(!is_snapshot_path(&strings(&[".git", "HEAD"])));
    assert!(!is_snapshot_path(&strings(&["target", "debug", "x"])));
    assert!(is_snapshot_path(&strings(&[".gitignore"])));
    assert!(is_snapshot_path(&strings(&["src", "target"])));
    assert!(is_snapshot_path(&strings(&[])));
}

#[test]
fn git_vcs_keeps_its_root() {
    let v = GitVcs::new("/tmp/repo".to_string());
    assert_eq!(v.root(), "/tmp/repo");
}

#[test]
fn commands_split_into_program_and_arguments() {
    assert!(split_command(&vec![]).is_none());
    let (p, a) = split_command(&strings(&["cargo", "test", "--all"])).unwrap();
    assert_eq!(p, "cargo");
    assert_eq!(a, strings(&["test", "--all"]));
    let (p, a) = split_command(&strings(&["make"])).unwrap();
    assert_eq!(p, "make");
    assert!(a.is_empty());
}

#[test]
fn runner_picks_each_command() {
    let r = ProcessRunner::new(strings(&["fmt"]), strings(&["check"]), strings(&["test"]));
    assert_eq!(r.command(CheckKind::Format), &strings(&["fmt"]));
    assert_eq!(r.command(CheckKind::Static), &strings(&["check"]));
    assert_eq!(r.command(CheckKind::Test), &strings(&["test"]));
}

#[test]
fn base_url_loses_trailing_slashes() {
    assert_eq!(normalize_base_url(&"https://api.example.com/v1//".to_string()), "https://api.example.com/v1");
    assert_eq!(normalize_base_url(&"https://h/v1".to_string()), "https://h/v1");
    assert_eq!(normalize_base_url(&"///".to_string()), "");
    assert_eq!(normalize_base_url(&"".to_string()), "");
    assert_eq!(chat_url(&"https://h/v1".to_string()), "https://h/v1/chat/completions");
}

#[test]
fn prompt_and_file_sections() {
    assert_eq!(file_section(&"src/lib.rs".to_string(), &"fn a() {}".to_string()), "--- src/lib.rs ---\nfn a() {}\n\n");
    let ctx = StepContext {
        role: Role::Implementor,
        step_index: 4,
        kata_description: "kata".to_string(),
        git_last_commit_msg: "msg".to_string(),
        git_last_diff: "+x".to_string(),
        repo_snapshot_paths: vec![],
    };
    assert_eq!(
        user_prompt(&ctx, Role::Implementor, &"FILES".to_string()),
        "Step: 4\nRole: Implementor\nKata: kata\n\nLast Commit: msg\n\nLast Diff:\n+x\n\nCurrent Files:\nFILES"
    );
}

#[test]
fn only_upserts_are_reported() {
    let edit = |p: &str, a: &str| FileEdit { path: p.to_string(), action: a.to_string(), content: String::new() };
    let plan = EditPlan {
        edits: vec![edit("a.rs", "upsert"), edit("b.rs", "delete"), edit("c.rs", "upsert")],
        commit_message: "test: c".to_string(),
        notes: "n".to_string(),
    };
    assert!(is_upsert(&plan.edits[0]));
    assert!(!is_upsert(&plan.edits[1]));
    let r = step_result_of(&plan);
    assert_eq!(r.files_changed, strings(&["a.rs", "c.rs"]));
    assert_eq!(r.commit_message, "test: c");
    assert_eq!(r.notes, "n");
}

#[test]
fn fences_and_white_space_are_removed() {
    assert_eq!(strip_fences(&"```json{\"a\":1}```".to_string()), "{\"a\":1}");
    assert_eq!(strip_fences(&"``````x``````".to_string()), "x");
    assert_eq!(strip_fences(&"plain".to_string()), "plain");
    assert_eq!(strip_fences(&"```".to_string()), "");
    assert_eq!(clean_response(&"  ```json\n{\"edits\": []}\n```  \n".to_string()), "{\"edits\": []}");
    assert_eq!(clean_response(&"\n\t ok \n".to_string()), "ok");
}

#[test]
fn snapshot_lists_kept_files_sorted() {
    let entry = |p: &str| TreeEntry { path: p.to_string(), components: p.split('/').map(|c| c.to_string()).collect() };
    let entries = vec![
        entry("src/main.rs"),
        entry(".git/HEAD"),
        entry("Cargo.toml"),
        entry("target/debug/x"),
        entry(".gitignore"),
        entry("src/lib.rs"),
        entry("kata.md"),
    ];
    assert_eq!(snapshot_paths(&entries), strings(&[".gitignore", "Cargo.toml", "kata.md", "src/lib.rs", "src/main.rs"]));
    assert!(snapshot_paths(&vec![]).is_empty());
}
