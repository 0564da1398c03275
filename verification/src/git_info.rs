//! What a session records of the repository it works in. The repository is
//! asked by running `git`; this module says which commands to run and what
//! their outcomes mean. Whoever runs the commands bounds each by
//! [`PROBE_TIMEOUT_SECS`].

use crate::text::utf8_text;
use vstd::prelude::*;
use vstd::utf8::decode_utf8;
use vstd::utf8::valid_utf8;

verus! {

/// The seconds after which a command that has not ended is given up.
pub const PROBE_TIMEOUT_SECS: u64 = 5;

/// The length of a commit hash in hexadecimal digits.
pub const COMMIT_HASH_LEN: usize = 40;

/// What `git rev-parse --abbrev-ref HEAD` prints where no branch is
/// checked out.
pub const DETACHED_HEAD: &'static str = "HEAD";

/// The questions that a repository is asked.
#[derive(Debug, Clone, Copy, PartialEq, Eq, Structural)]
pub enum ProbeKind {
    /// Whether the directory lies in a repository.
    IsRepository,
    /// The hash of the commit that is checked out.
    CommitHash,
    /// The name of the branch that is checked out.
    Branch,
    /// The address of the remote `origin`.
    RemoteUrl,
}

/// How a command ended.
#[derive(Debug, Clone, PartialEq, Eq)]
pub enum ProbeOutcome {
    /// The command had not ended when its time was up.
    TimedOut,
    /// The command could not be started.
    NotStarted,
    /// The command ended with the exit code `code`, having printed `stdout`.
    Exited { code: i32, stdout: Vec<u8> },
}

/// View of a [`ProbeOutcome`].
pub enum ProbeOutcomeView {
    TimedOut,
    NotStarted,
    Exited { code: i32, stdout: Seq<u8> },
}

impl View for ProbeOutcome {
    type V = ProbeOutcomeView;

    open spec fn view(&self) -> ProbeOutcomeView {
        match self {
            ProbeOutcome::TimedOut => ProbeOutcomeView::TimedOut,
            ProbeOutcome::NotStarted => ProbeOutcomeView::NotStarted,
            ProbeOutcome::Exited { code, stdout } => ProbeOutcomeView::Exited {
                code: *code,
                stdout: stdout@,
            },
        }
    }
}

/// What is known of a repository. A field that is absent could not be
/// determined.
#[derive(Debug, Clone, PartialEq, Eq, Default)]
pub struct GitInfo {
    pub commit_hash: Option<String>,
    pub branch: Option<String>,
    pub repository_url: Option<String>,
}

/// View of a [`GitInfo`].
pub struct GitInfoView {
    pub commit_hash: Option<Seq<char>>,
    pub branch: Option<Seq<char>>,
    pub repository_url: Option<Seq<char>>,
}

impl View for GitInfo {
    type V = GitInfoView;

    open spec fn view(&self) -> GitInfoView {
        GitInfoView {
            commit_hash: self.commit_hash.deep_view(),
            branch: self.branch.deep_view(),
            repository_url: self.repository_url.deep_view(),
        }
    }
}

impl DeepView for GitInfo {
    type V = GitInfoView;

    open spec fn deep_view(&self) -> GitInfoView {
        self@
    }
}

/// A byte that is ASCII white space.
pub open spec fn is_space(byte: u8) -> bool {
    byte == 0x20 || (0x09 <= byte <= 0x0d)
}

/// A byte that is a hexadecimal digit.
pub open spec fn is_hex_digit(byte: u8) -> bool {
    (0x30 <= byte <= 0x39) || (0x61 <= byte <= 0x66) || (0x41 <= byte <= 0x46)
}

/// `bytes` without the white space that it starts with.
pub open spec fn trim_start(bytes: Seq<u8>) -> Seq<u8>
    decreases bytes.len(),
{
    if bytes.len() > 0 && is_space(bytes[0]) {
        trim_start(bytes.drop_first())
    } else {
        bytes
    }
}

/// `bytes` without the white space that it ends with.
pub open spec fn trim_end(bytes: Seq<u8>) -> Seq<u8>
    decreases bytes.len(),
{
    if bytes.len() > 0 && is_space(bytes.last()) {
        trim_end(bytes.drop_last())
    } else {
        bytes
    }
}

/// `bytes` without the white space at its two ends.
pub open spec fn trimmed(bytes: Seq<u8>) -> Seq<u8> {
    trim_end(trim_start(bytes))
}

/// What a command printed, without the white space around it: present
/// where the command ended with exit code 0 and printed something else
/// than white space.
pub open spec fn printed(outcome: ProbeOutcomeView) -> Option<Seq<u8>> {
    match outcome {
        ProbeOutcomeView::Exited { code, stdout } => if code == 0 && trimmed(stdout).len() > 0 {
            Some(trimmed(stdout))
        } else {
            None
        },
        _ => None,
    }
}

/// What a command printed as text; absent where it printed no UTF-8.
pub open spec fn printed_text(outcome: ProbeOutcomeView) -> Option<Seq<char>> {
    match printed(outcome) {
        Some(bytes) => if valid_utf8(bytes) {
            Some(decode_utf8(bytes))
        } else {
            None
        },
        None => None,
    }
}

/// `bytes` is a commit hash: 40 hexadecimal digits.
pub open spec fn is_commit_hash(bytes: Seq<u8>) -> bool {
    bytes.len() == COMMIT_HASH_LEN && forall|i: int| 0 <= i < bytes.len() ==> is_hex_digit(#[trigger] bytes[i])
}

/// The commit hash that the outcome of `CommitHash` gives.
pub open spec fn commit_hash_of(outcome: ProbeOutcomeView) -> Option<Seq<char>> {
    match printed(outcome) {
        Some(bytes) => if is_commit_hash(bytes) {
            printed_text(outcome)
        } else {
            None
        },
        None => None,
    }
}

/// The branch that the outcome of `Branch` gives: none where the head is
/// detached.
pub open spec fn branch_of(outcome: ProbeOutcomeView) -> Option<Seq<char>> {
    match printed_text(outcome) {
        Some(name) => if name == DETACHED_HEAD@ {
            None
        } else {
            Some(name)
        },
        None => None,
    }
}

/// Whether the outcome of `IsRepository` says that the directory lies in a
/// repository.
pub open spec fn in_repository(outcome: ProbeOutcomeView) -> bool {
    outcome matches ProbeOutcomeView::Exited { code, .. } && code == 0
}

/// What the outcomes of the three questions say of a repository.
pub open spec fn info_of(
    commit: ProbeOutcomeView,
    branch: ProbeOutcomeView,
    remote_url: ProbeOutcomeView,
) -> GitInfoView {
    GitInfoView {
        commit_hash: commit_hash_of(commit),
        branch: branch_of(branch),
        repository_url: printed_text(remote_url),
    }
}

/// What is recorded of the working directory: nothing outside a
/// repository, and otherwise what the three questions gave.
pub open spec fn collected(
    is_repository: ProbeOutcomeView,
    commit: ProbeOutcomeView,
    branch: ProbeOutcomeView,
    remote_url: ProbeOutcomeView,
) -> Option<GitInfoView> {
    if in_repository(is_repository) {
        Some(info_of(commit, branch, remote_url))
    } else {
        None
    }
}

/// The arguments of the `git` command that asks `kind`.
pub open spec fn probe_args(kind: ProbeKind) -> Seq<Seq<char>> {
    match kind {
        ProbeKind::IsRepository => seq!["rev-parse"@, "--git-dir"@],
        ProbeKind::CommitHash => seq!["rev-parse"@, "HEAD"@],
        ProbeKind::Branch => seq!["rev-parse"@, "--abbrev-ref"@, "HEAD"@],
        ProbeKind::RemoteUrl => seq!["remote"@, "get-url"@, "origin"@],
    }
}

/// The arguments of the `git` command that asks `kind`.
pub fn probe_command(kind: ProbeKind) -> (args: Vec<String>)
    ensures
        args.deep_view() == probe_args(kind),
{
    let args = match kind {
        ProbeKind::IsRepository => vec!["rev-parse".to_string(), "--git-dir".to_string()],
        ProbeKind::CommitHash => vec!["rev-parse".to_string(), "HEAD".to_string()],
        ProbeKind::Branch => vec![
            "rev-parse".to_string(),
            "--abbrev-ref".to_string(),
            "HEAD".to_string(),
        ],
        ProbeKind::RemoteUrl => vec!["remote".to_string(), "get-url".to_string(), "origin".to_string()],
    };
    assert(args.deep_view() =~= probe_args(kind));
    args
}

fn is_space_byte(byte: u8) -> (yes: bool)
    ensures
        yes == is_space(byte),
{
    byte == 0x20 || (0x09 <= byte && byte <= 0x0d)
}

fn is_hex_byte(byte: u8) -> (yes: bool)
    ensures
        yes == is_hex_digit(byte),
{
    (0x30 <= byte && byte <= 0x39) || (0x61 <= byte && byte <= 0x66) || (0x41 <= byte && byte <= 0x46)
}

proof fn lemma_trim_start_skips(bytes: Seq<u8>, start: int)
    requires
        0 <= start <= bytes.len(),
        forall|k: int| 0 <= k < start ==> is_space(#[trigger] bytes[k]),
    ensures
        trim_start(bytes) == trim_start(bytes.subrange(start, bytes.len() as int)),
    decreases start,
{
    if start > 0 {
        assert(bytes.drop_first().subrange(start - 1, bytes.len() - 1) =~= bytes.subrange(
            start,
            bytes.len() as int,
        ));
        assert forall|k: int| 0 <= k < start - 1 implies is_space(#[trigger] bytes.drop_first()[k]) by {
            assert(bytes.drop_first()[k] == bytes[k + 1]);
        }
        lemma_trim_start_skips(bytes.drop_first(), start - 1);
    } else {
        assert(bytes.subrange(0, bytes.len() as int) =~= bytes);
    }
}

proof fn lemma_trim_end_skips(bytes: Seq<u8>, end: int)
    requires
        0 <= end <= bytes.len(),
        forall|k: int| end <= k < bytes.len() ==> is_space(#[trigger] bytes[k]),
    ensures
        trim_end(bytes) == trim_end(bytes.subrange(0, end)),
    decreases bytes.len() - end,
{
    if end < bytes.len() {
        assert(bytes.drop_last().subrange(0, end) =~= bytes.subrange(0, end));
        lemma_trim_end_skips(bytes.drop_last(), end);
    } else {
        assert(bytes.subrange(0, end) =~= bytes);
    }
}

/// The bytes of `bytes` without the white space at its two ends.
pub fn trim_bytes(bytes: &Vec<u8>) -> (kept: Vec<u8>)
    ensures
        kept@ == trimmed(bytes@),
{
    let mut start: usize = 0;
    while start < bytes.len() && is_space_byte(bytes[start])
        invariant
            start <= bytes.len(),
            forall|k: int| 0 <= k < start ==> is_space(#[trigger] bytes@[k]),
        decreases bytes.len() - start,
    {
        start += 1;
    }
    let mut end: usize = bytes.len();
    while end > start && is_space_byte(bytes[end - 1])
        invariant
            start <= end <= bytes.len(),
            forall|k: int| end <= k < bytes.len() ==> is_space(#[trigger] bytes@[k]),
        decreases end,
    {
        end -= 1;
    }
    let mut kept: Vec<u8> = Vec::new();
    let mut i: usize = start;
    while i < end
        invariant
            start <= i <= end <= bytes.len(),
            kept@ == bytes@.subrange(start as int, i as int),
        decreases end - i,
    {
        kept.push(bytes[i]);
        assert(kept@ =~= bytes@.subrange(start as int, i + 1));
        i += 1;
    }
    proof {
        let rest = bytes@.subrange(start as int, bytes@.len() as int);
        lemma_trim_start_skips(bytes@, start as int);
        assert(trim_start(bytes@) == rest) by {
            if rest.len() > 0 {
                assert(rest[0] == bytes@[start as int]);
            }
        }
        assert forall|k: int| end - start <= k < rest.len() implies is_space(#[trigger] rest[k]) by {
            assert(rest[k] == bytes@[k + start]);
        }
        lemma_trim_end_skips(rest, end - start);
        assert(rest.subrange(0, end - start) =~= kept@);
        assert(trim_end(kept@) == kept@) by {
            if kept@.len() > 0 {
                assert(kept@.last() == bytes@[end - 1]);
            }
        }
    }
    kept
}

/// What a command printed, without the white space around it.
pub fn printed_bytes(outcome: &ProbeOutcome) -> (bytes: Option<Vec<u8>>)
    ensures
        bytes.deep_view() == printed(outcome@),
{
    match outcome {
        ProbeOutcome::Exited { code, stdout } => {
            if *code != 0 {
                return None;
            }
            let kept = trim_bytes(stdout);
            if kept.len() == 0 {
                return None;
            }
            assert(kept.deep_view() =~= kept@);
            Some(kept)
        },
        _ => None,
    }
}

/// Whether `bytes` is a commit hash.
pub fn is_commit_hash_bytes(bytes: &Vec<u8>) -> (yes: bool)
    ensures
        yes == is_commit_hash(bytes@),
{
    if bytes.len() != COMMIT_HASH_LEN {
        return false;
    }
    let mut i: usize = 0;
    while i < bytes.len()
        invariant
            i <= bytes.len(),
            bytes.len() == COMMIT_HASH_LEN,
            forall|k: int| 0 <= k < i ==> is_hex_digit(#[trigger] bytes@[k]),
        decreases bytes.len() - i,
    {
        if !is_hex_byte(bytes[i]) {
            return false;
        }
        i += 1;
    }
    true
}

/// Whether the outcome of `IsRepository` says that the directory lies in a
/// repository.
pub fn is_repository(outcome: &ProbeOutcome) -> (yes: bool)
    ensures
        yes == in_repository(outcome@),
{
    match outcome {
        ProbeOutcome::Exited { code, .. } => *code == 0,
        _ => false,
    }
}

impl GitInfo {
    /// The commit hash that the outcome of `CommitHash` gives.
    pub fn commit_hash_from(outcome: &ProbeOutcome) -> (hash: Option<String>)
        ensures
            hash.deep_view() == commit_hash_of(outcome@),
    {
        let bytes = printed_bytes(outcome)?;
        assert(bytes.deep_view() =~= bytes@);
        if !is_commit_hash_bytes(&bytes) {
            return None;
        }
        utf8_text(bytes)
    }

    /// The branch that the outcome of `Branch` gives.
    pub fn branch_from(outcome: &ProbeOutcome) -> (branch: Option<String>)
        ensures
            branch.deep_view() == branch_of(outcome@),
    {
        let bytes = printed_bytes(outcome)?;
        assert(bytes.deep_view() =~= bytes@);
        let name = utf8_text(bytes)?;
        if crate::text::str_eq(name.as_str(), DETACHED_HEAD) {
            None
        } else {
            Some(name)
        }
    }

    /// The address that the outcome of `RemoteUrl` gives.
    pub fn remote_url_from(outcome: &ProbeOutcome) -> (url: Option<String>)
        ensures
            url.deep_view() == printed_text(outcome@),
    {
        let bytes = printed_bytes(outcome)?;
        assert(bytes.deep_view() =~= bytes@);
        utf8_text(bytes)
    }

    /// What the outcomes of the three questions say of a repository.
    pub fn from_probes(commit: &ProbeOutcome, branch: &ProbeOutcome, remote_url: &ProbeOutcome) -> (info:
        GitInfo)
        ensures
            info@ == info_of(commit@, branch@, remote_url@),
    {
        GitInfo {
            commit_hash: GitInfo::commit_hash_from(commit),
            branch: GitInfo::branch_from(branch),
            repository_url: GitInfo::remote_url_from(remote_url),
        }
    }

    /// Whether nothing is known of the repository.
    pub fn is_empty(&self) -> (yes: bool)
        ensures
            yes == (self@.commit_hash is None && self@.branch is None && self@.repository_url is None),
    {
        self.commit_hash.is_none() && self.branch.is_none() && self.repository_url.is_none()
    }
}

/// What is recorded of the working directory, from the outcomes of the
/// four questions. The outcome of `IsRepository` decides alone whether
/// anything is recorded.
pub fn collect_git_info(
    is_repo: &ProbeOutcome,
    commit: &ProbeOutcome,
    branch: &ProbeOutcome,
    remote_url: &ProbeOutcome,
) -> (info: Option<GitInfo>)
    ensures
        info.deep_view() == collected(is_repo@, commit@, branch@, remote_url@),
{
    if is_repository(is_repo) {
        Some(GitInfo::from_probes(commit, branch, remote_url))
    } else {
        None
    }
}

} // verus!
