use codex_core::git_info::collect_git_info;
use codex_core::git_info::is_repository;
use codex_core::git_info::probe_command;
use codex_core::git_info::trim_bytes;
use codex_core::git_info::GitInfo;
use codex_core::git_info::ProbeKind;
use codex_core::git_info::ProbeOutcome;
use codex_core::git_info::PROBE_TIMEOUT_SECS;

fn printed(text: &str) -> ProbeOutcome {
    ProbeOutcome::Exited { code: 0, stdout: text.as_bytes().to_vec() }
}

const HASH: &str = "0123456789abcdef0123456789abcdef01234567";

#[test]
fn outside_a_repository_nothing_is_collected() {
    let not_a_repo = ProbeOutcome::Exited { code: 128, stdout: vec![] };
    assert!(!is_repository(&not_a_repo));
    assert_eq!(
        collect_git_info(&not_a_repo, &printed(HASH), &printed("main\n"), &printed("u\n")),
        None
    );
    assert_eq!(
        collect_git_info(&ProbeOutcome::TimedOut, &printed(HASH), &printed("main"), &printed("u")),
        None
    );
    assert_eq!(
        collect_git_info(&ProbeOutcome::NotStarted, &printed(HASH), &printed("main"), &printed("u")),
        None
    );
}

#[test]
fn a_repository_with_one_commit_and_a_remote() {
    let info = collect_git_info(
        &printed(".git\n"),
        &printed(&format!("{}\n", HASH)),
        &printed("main\n"),
        &printed("https://example.com/repo.git\n"),
    )
    .unwrap();
    let hash = info.commit_hash.clone().unwrap();
    assert_eq!(hash.len(), 40);
    assert!(hash.chars().all(|c| c.is_ascii_hexdigit()));
    assert_eq!(info.branch.as_deref(), Some("main"));
    assert_eq!(info.repository_url.as_deref(), Some("https://example.com/repo.git"));
    assert!(!info.is_empty());
}

#[test]
fn a_detached_head_has_no_branch() {
    let info = collect_git_info(
        &printed(".git\n"),
        &printed(&format!("{}\n", HASH)),
        &printed("HEAD\n"),
        &ProbeOutcome::Exited { code: 2, stdout: b"error: No such remote 'origin'\n".to_vec() },
    )
    .unwrap();
    assert_eq!(info.commit_hash.as_deref(), Some(HASH));
    assert_eq!(info.branch, None);
    assert_eq!(info.repository_url, None);
}

#[test]
fn a_field_that_could_not_be_determined_is_absent() {
    let info = GitInfo::from_probes(&ProbeOutcome::TimedOut, &printed(" \n"), &ProbeOutcome::NotStarted);
    assert!(info.is_empty());
    assert_eq!(info, GitInfo::default());
    assert_eq!(GitInfo::commit_hash_from(&printed("abc\n")), None);
    assert_eq!(GitInfo::commit_hash_from(&printed(&format!("{}g", &HASH[1..]))), None);
    assert_eq!(
        GitInfo::commit_hash_from(&printed(&HASH.to_uppercase())),
        Some(HASH.to_uppercase())
    );
    assert_eq!(GitInfo::branch_from(&ProbeOutcome::Exited { code: 0, stdout: vec![0xff, 0xfe] }), None);
    assert_eq!(GitInfo::branch_from(&printed("  feature/x \r\n")), Some("feature/x".to_string()));
    assert_eq!(GitInfo::branch_from(&printed("HEADS")), Some("HEADS".to_string()));
    assert_eq!(GitInfo::remote_url_from(&printed("\tgit@host:a/b.git\n\n")), Some("git@host:a/b.git".to_string()));
}

#[test]
fn white_space_is_trimmed_at_both_ends_only() {
    assert_eq!(trim_bytes(&b" \t a b \r\n".to_vec()), b"a b".to_vec());
    assert_eq!(trim_bytes(&b"\n\n".to_vec()), Vec::<u8>::new());
    assert_eq!(trim_bytes(&Vec::new()), Vec::<u8>::new());
    assert_eq!(trim_bytes(&b"x".to_vec()), b"x".to_vec());
}

#[test]
fn the_questions_are_git_commands() {
    assert_eq!(probe_command(ProbeKind::IsRepository), vec!["rev-parse", "--git-dir"]);
    assert_eq!(probe_command(ProbeKind::CommitHash), vec!["rev-parse", "HEAD"]);
    assert_eq!(probe_command(ProbeKind::Branch), vec!["rev-parse", "--abbrev-ref", "HEAD"]);
    assert_eq!(probe_command(ProbeKind::RemoteUrl), vec!["remote", "get-url", "origin"]);
    assert!(PROBE_TIMEOUT_SECS > 0 && PROBE_TIMEOUT_SECS <= 10);
}
