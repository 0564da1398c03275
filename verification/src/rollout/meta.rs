//! What names a session and heads its log: the session's identifier, the
//! time at which it started, and the record that is the log's first line.

use crate::git_info::GitInfo;
use crate::git_info::GitInfoView;
use crate::json::lemma_object_view;
use crate::json::members_view;
use crate::json::Json;
use crate::json::JsonView;
use crate::text::padded_decimal;
use crate::text::push_padded_decimal;
use crate::wire::nullable_text;
use crate::wire::required_text;
use vstd::prelude::*;
use vstd::string::*;

verus! {

/// The character of a hexadecimal digit, in lower case.
pub open spec fn hex_char(digit: int) -> char {
    if digit == 0 {
        '0'
    } else if digit == 1 {
        '1'
    } else if digit == 2 {
        '2'
    } else if digit == 3 {
        '3'
    } else if digit == 4 {
        '4'
    } else if digit == 5 {
        '5'
    } else if digit == 6 {
        '6'
    } else if digit == 7 {
        '7'
    } else if digit == 8 {
        '8'
    } else if digit == 9 {
        '9'
    } else if digit == 10 {
        'a'
    } else if digit == 11 {
        'b'
    } else if digit == 12 {
        'c'
    } else if digit == 13 {
        'd'
    } else if digit == 14 {
        'e'
    } else {
        'f'
    }
}

/// The last `width` hexadecimal digits of `n`, the most significant
/// first, with zeros in front where `n` has fewer.
pub open spec fn hex_padded(n: nat, width: nat) -> Seq<char>
    decreases width,
{
    if width == 0 {
        Seq::empty()
    } else {
        hex_padded(n / 16, (width - 1) as nat).push(hex_char((n % 16) as int))
    }
}

/// The text of the identifier whose 128 bits are `value`: its 32
/// hexadecimal digits in lower case, in groups of 8, 4, 4, 4 and 12 with
/// hyphens between them.
pub open spec fn uuid_text(value: u128) -> Seq<char> {
    let digits = hex_padded(value as nat, 32);
    digits.subrange(0, 8) + "-"@ + digits.subrange(8, 12) + "-"@ + digits.subrange(12, 16) + "-"@
        + digits.subrange(16, 20) + "-"@ + digits.subrange(20, 32)
}

/// `uuid::Uuid::from_u128` and then `to_string`: the identifier's text,
/// hyphenated and in lower case.
#[verifier::external_body]
fn uuid_to_text(value: u128) -> (text: String)
    ensures
        text@ == uuid_text(value),
{
    uuid::Uuid::from_u128(value).to_string()
}

/// The identifier of a session: the 128 bits of a UUID.
#[derive(Debug, Clone, Copy, PartialEq, Eq, Structural)]
pub struct SessionId {
    pub value: u128,
}

impl SessionId {
    /// The identifier as text.
    pub fn to_text(&self) -> (text: String)
        ensures
            text@ == uuid_text(self.value),
    {
        uuid_to_text(self.value)
    }
}

/// Whether `year` is a leap year.
pub open spec fn is_leap_year(year: int) -> bool {
    year % 4 == 0 && (year % 100 != 0 || year % 400 == 0)
}

/// The number of days of `month` in `year`; 0 for a month that is none.
pub open spec fn days_in_month(year: int, month: int) -> int {
    if month == 2 {
        if is_leap_year(year) {
            29
        } else {
            28
        }
    } else if month == 4 || month == 6 || month == 9 || month == 11 {
        30
    } else if 1 <= month <= 12 {
        31
    } else {
        0
    }
}

/// A point in time by the calendar, to the millisecond.
pub open spec fn valid_time(
    year: int,
    month: int,
    day: int,
    hour: int,
    minute: int,
    second: int,
    millisecond: int,
) -> bool {
    &&& 0 <= year <= 9999
    &&& 1 <= month <= 12
    &&& 1 <= day <= days_in_month(year, month)
    &&& 0 <= hour < 24
    &&& 0 <= minute < 60
    &&& 0 <= second < 60
    &&& 0 <= millisecond < 1000
}

/// View of a [`Timestamp`].
pub struct TimestampView {
    pub year: int,
    pub month: int,
    pub day: int,
    pub hour: int,
    pub minute: int,
    pub second: int,
    pub millisecond: int,
}

impl TimestampView {
    /// The date, as `YYYY-MM-DD`.
    pub open spec fn date(self) -> Seq<char> {
        padded_decimal(self.year as nat, 4) + "-"@ + padded_decimal(self.month as nat, 2) + "-"@
            + padded_decimal(self.day as nat, 2)
    }

    /// The time as a file name carries it: `YYYY-MM-DDThh-mm-ss`.
    pub open spec fn file_stamp(self) -> Seq<char> {
        self.date() + "T"@ + padded_decimal(self.hour as nat, 2) + "-"@ + padded_decimal(
            self.minute as nat,
            2,
        ) + "-"@ + padded_decimal(self.second as nat, 2)
    }

    /// The time as the head of a log carries it:
    /// `YYYY-MM-DDThh:mm:ss.mmmZ`.
    pub open spec fn iso_millis(self) -> Seq<char> {
        self.date() + "T"@ + padded_decimal(self.hour as nat, 2) + ":"@ + padded_decimal(
            self.minute as nat,
            2,
        ) + ":"@ + padded_decimal(self.second as nat, 2) + "."@ + padded_decimal(
            self.millisecond as nat,
            3,
        ) + "Z"@
    }
}

/// The time at which a session started, by the calendar and in UTC.
#[derive(Debug, Clone, Copy, PartialEq, Eq)]
pub struct Timestamp {
    year: u16,
    month: u8,
    day: u8,
    hour: u8,
    minute: u8,
    second: u8,
    millisecond: u16,
}

impl View for Timestamp {
    type V = TimestampView;

    closed spec fn view(&self) -> TimestampView {
        TimestampView {
            year: self.year as int,
            month: self.month as int,
            day: self.day as int,
            hour: self.hour as int,
            minute: self.minute as int,
            second: self.second as int,
            millisecond: self.millisecond as int,
        }
    }
}

/// The number of days of `month` in `year`; 0 for a month that is none.
pub fn month_length(year: u16, month: u8) -> (days: u8)
    ensures
        days == days_in_month(year as int, month as int),
{
    if month == 2 {
        if year % 4 == 0 && (year % 100 != 0 || year % 400 == 0) {
            29
        } else {
            28
        }
    } else if month == 4 || month == 6 || month == 9 || month == 11 {
        30
    } else if 1 <= month && month <= 12 {
        31
    } else {
        0
    }
}

impl Timestamp {
    #[verifier::type_invariant]
    spec fn wf(self) -> bool {
        valid_time(
            self.year as int,
            self.month as int,
            self.day as int,
            self.hour as int,
            self.minute as int,
            self.second as int,
            self.millisecond as int,
        )
    }

    /// The point in time with these calendar parts; `None` where they are
    /// no point in time of the years 0 to 9999.
    pub fn new(year: u16, month: u8, day: u8, hour: u8, minute: u8, second: u8, millisecond: u16) -> (time:
        Option<Timestamp>)
        ensures
            time is Some == valid_time(
                year as int,
                month as int,
                day as int,
                hour as int,
                minute as int,
                second as int,
                millisecond as int,
            ),
            time matches Some(t) ==> t@ == (TimestampView {
                year: year as int,
                month: month as int,
                day: day as int,
                hour: hour as int,
                minute: minute as int,
                second: second as int,
                millisecond: millisecond as int,
            }),
    {
        if year <= 9999 && 1 <= month && month <= 12 && 1 <= day && day <= month_length(year, month)
            && hour < 24 && minute < 60 && second < 60 && millisecond < 1000 {
            Some(Timestamp { year, month, day, hour, minute, second, millisecond })
        } else {
            None
        }
    }

    fn push_date(&self, out: &mut String)
        ensures
            final(out)@ == old(out)@ + self@.date(),
    {
        push_padded_decimal(out, self.year as u64, 4);
        out.append("-");
        push_padded_decimal(out, self.month as u64, 2);
        out.append("-");
        push_padded_decimal(out, self.day as u64, 2);
        assert(out@ =~= old(out)@ + self@.date());
    }

    /// The time as a file name carries it: `YYYY-MM-DDThh-mm-ss`.
    pub fn file_stamp(&self) -> (text: String)
        ensures
            text@ == self@.file_stamp(),
    {
        let mut out = String::new();
        self.push_date(&mut out);
        out.append("T");
        push_padded_decimal(&mut out, self.hour as u64, 2);
        out.append("-");
        push_padded_decimal(&mut out, self.minute as u64, 2);
        out.append("-");
        push_padded_decimal(&mut out, self.second as u64, 2);
        assert(out@ =~= self@.file_stamp());
        out
    }

    /// The time as the head of a log carries it:
    /// `YYYY-MM-DDThh:mm:ss.mmmZ`.
    pub fn iso_millis(&self) -> (text: String)
        ensures
            text@ == self@.iso_millis(),
    {
        let mut out = String::new();
        self.push_date(&mut out);
        out.append("T");
        push_padded_decimal(&mut out, self.hour as u64, 2);
        out.append(":");
        push_padded_decimal(&mut out, self.minute as u64, 2);
        out.append(":");
        push_padded_decimal(&mut out, self.second as u64, 2);
        out.append(".");
        push_padded_decimal(&mut out, self.millisecond as u64, 3);
        out.append("Z");
        assert(out@ =~= self@.iso_millis());
        out
    }
}

/// The directory below the installation's home that holds the logs.
pub const SESSIONS_SUBDIR: &'static str = "sessions";

/// The name of the log of the session `id` that started at `started`:
/// names sort by the time of the start, and no two sessions share one.
pub open spec fn rollout_file_name_of(started: TimestampView, id: SessionId) -> Seq<char> {
    "rollout-"@ + started.file_stamp() + "-"@ + uuid_text(id.value) + ".jsonl"@
}

/// The name of the log of the session `id` that started at `started`.
pub fn rollout_file_name(started: &Timestamp, id: &SessionId) -> (name: String)
    ensures
        name@ == rollout_file_name_of(started@, *id),
{
    let mut name = "rollout-".to_string();
    name.append(started.file_stamp().as_str());
    name.append("-");
    name.append(id.to_text().as_str());
    name.append(".jsonl");
    name
}

/// The record that heads a log. It is made once, when the session starts.
#[derive(Debug, Clone, PartialEq, Eq)]
pub struct SessionMeta {
    pub id: String,
    pub timestamp: String,
    pub instructions: Option<String>,
    pub git: Option<GitInfo>,
}

/// View of a [`SessionMeta`].
pub struct SessionMetaView {
    pub id: Seq<char>,
    pub timestamp: Seq<char>,
    pub instructions: Option<Seq<char>>,
    pub git: Option<GitInfoView>,
}

impl View for SessionMeta {
    type V = SessionMetaView;

    open spec fn view(&self) -> SessionMetaView {
        SessionMetaView {
            id: self.id@,
            timestamp: self.timestamp@,
            instructions: self.instructions.deep_view(),
            git: self.git.deep_view(),
        }
    }
}

impl DeepView for SessionMeta {
    type V = SessionMetaView;

    open spec fn deep_view(&self) -> SessionMetaView {
        self@
    }
}

/// The member `key` with the string `text`, or no member where there is no
/// string.
pub open spec fn optional_member(key: Seq<char>, text: Option<Seq<char>>) -> Seq<(Seq<char>, JsonView)> {
    match text {
        Some(s) => seq![(key, JsonView::Text(s))],
        None => Seq::empty(),
    }
}

/// The encoding of what is known of a repository: an object with a member
/// for each field that is present.
pub open spec fn encoded_git(git: GitInfoView) -> JsonView {
    JsonView::Object(
        optional_member("commit_hash"@, git.commit_hash) + optional_member("branch"@, git.branch)
            + optional_member("repository_url"@, git.repository_url),
    )
}

/// What an object says of a repository.
pub open spec fn decoded_git(json: JsonView) -> Option<GitInfoView> {
    match (
        nullable_text(json, "commit_hash"@),
        nullable_text(json, "branch"@),
        nullable_text(json, "repository_url"@),
    ) {
        (Some(commit_hash), Some(branch), Some(repository_url)) if json is Object => Some(
            GitInfoView { commit_hash, branch, repository_url },
        ),
        _ => None,
    }
}

/// The member `git`, or no member where nothing is known.
pub open spec fn git_member(git: Option<GitInfoView>) -> Seq<(Seq<char>, JsonView)> {
    match git {
        Some(info) => seq![("git"@, encoded_git(info))],
        None => Seq::empty(),
    }
}

/// The encoding of the head of a log: `id` and `timestamp` always, the
/// instructions and the repository where they are present.
pub open spec fn encoded_meta(meta: SessionMetaView) -> JsonView {
    JsonView::Object(
        seq![("id"@, JsonView::Text(meta.id)), ("timestamp"@, JsonView::Text(meta.timestamp))]
            + optional_member("instructions"@, meta.instructions) + git_member(meta.git),
    )
}

/// The head of a log that a tree encodes.
pub open spec fn decoded_meta(json: JsonView) -> Option<SessionMetaView> {
    match (
        required_text(json, "id"@),
        required_text(json, "timestamp"@),
        nullable_text(json, "instructions"@),
    ) {
        (Some(id), Some(timestamp), Some(instructions)) => match json.member("git"@) {
            None | Some(JsonView::Null) => Some(
                SessionMetaView { id, timestamp, instructions, git: None },
            ),
            Some(value) => match decoded_git(value) {
                Some(info) => Some(SessionMetaView { id, timestamp, instructions, git: Some(info) }),
                None => None,
            },
        },
        _ => None,
    }
}

proof fn lemma_meta_names()
    ensures
        "id"@.len() == 2,
        "git"@.len() == 3,
        "timestamp"@.len() == 9,
        "instructions"@.len() == 12,
        "commit_hash"@.len() == 11,
        "branch"@.len() == 6,
        "repository_url"@.len() == 14,
{
    reveal_strlit("id");
    reveal_strlit("git");
    reveal_strlit("timestamp");
    reveal_strlit("instructions");
    reveal_strlit("commit_hash");
    reveal_strlit("branch");
    reveal_strlit("repository_url");
}

/// What is known of a repository is what its encoding decodes to.
pub proof fn lemma_git_round_trip(git: GitInfoView)
    ensures
        decoded_git(encoded_git(git)) == Some(git),
{
    lemma_meta_names();
    reveal_with_fuel(crate::json::member_from, 4);
    let members = encoded_git(git)->Object_0;
    assert(members.len() <= 3);
}

/// The head of a log is what its encoding decodes to.
pub proof fn lemma_meta_round_trip(meta: SessionMetaView)
    ensures
        decoded_meta(encoded_meta(meta)) == Some(meta),
{
    lemma_meta_names();
    reveal_with_fuel(crate::json::member_from, 5);
    if meta.git is Some {
        lemma_git_round_trip(meta.git->0);
    }
    let members = encoded_meta(meta)->Object_0;
    assert(members.len() <= 4);
}

/// No conversation item reads as the head of a log: a log has its head
/// once, whatever items follow it.
pub proof fn lemma_item_is_no_head(item: crate::models::ResponseItemView)
    ensures
        decoded_meta(crate::wire::encoded_item(item)) is None,
{
    lemma_meta_names();
    crate::wire::lemma_item_names();
    reveal_with_fuel(crate::json::member_from, 6);
}

/// The head of a log reads as no conversation item of a known kind.
pub proof fn lemma_head_is_no_item(meta: SessionMetaView)
    ensures
        crate::wire::decoded_item(encoded_meta(meta)) is None,
{
    lemma_meta_names();
    crate::wire::lemma_item_names();
    reveal_with_fuel(crate::json::member_from, 5);
    let members = encoded_meta(meta)->Object_0;
    assert(members.len() <= 4);
}

fn push_optional(members: &mut Vec<(String, Json)>, key: &str, text: &Option<String>)
    ensures
        members_view(final(members)@) == members_view(old(members)@) + optional_member(
            key@,
            text.deep_view(),
        ),
{
    match text {
        Some(s) => {
            members.push((key.to_string(), Json::Text(s.clone())));
        },
        None => {},
    }
    assert(members_view(members@) =~= members_view(old(members)@) + optional_member(
        key@,
        text.deep_view(),
    ));
}

/// Encodes what is known of a repository.
pub fn encode_git(git: &GitInfo) -> (json: Json)
    ensures
        json@ == encoded_git(git@),
{
    let mut members: Vec<(String, Json)> = Vec::new();
    assert(members_view(members@) =~= Seq::empty());
    push_optional(&mut members, "commit_hash", &git.commit_hash);
    push_optional(&mut members, "branch", &git.branch);
    push_optional(&mut members, "repository_url", &git.repository_url);
    proof {
        lemma_object_view(members);
        assert(members_view(members@) =~= encoded_git(git@)->Object_0);
    }
    Json::Object(members)
}

impl SessionMeta {
    /// The head of the log of the session `id`, started at `started`.
    pub fn new(id: &SessionId, started: &Timestamp, instructions: Option<String>, git: Option<GitInfo>) -> (meta:
        SessionMeta)
        ensures
            meta@ == (SessionMetaView {
                id: uuid_text(id.value),
                timestamp: started@.iso_millis(),
                instructions: instructions.deep_view(),
                git: git.deep_view(),
            }),
    {
        SessionMeta { id: id.to_text(), timestamp: started.iso_millis(), instructions, git }
    }

    /// Encodes the head of a log.
    pub fn to_json(&self) -> (json: Json)
        ensures
            json@ == encoded_meta(self@),
    {
        let mut members: Vec<(String, Json)> = Vec::new();
        members.push(("id".to_string(), Json::Text(self.id.clone())));
        members.push(("timestamp".to_string(), Json::Text(self.timestamp.clone())));
        let ghost base = members_view(members@);
        assert(base =~= seq![
            ("id"@, JsonView::Text(self.id@)),
            ("timestamp"@, JsonView::Text(self.timestamp@)),
        ]);
        push_optional(&mut members, "instructions", &self.instructions);
        let ghost before_git = members_view(members@);
        match &self.git {
            Some(info) => {
                members.push(("git".to_string(), encode_git(info)));
            },
            None => {},
        }
        proof {
            lemma_object_view(members);
            assert(members_view(members@) =~= before_git + git_member(self.git.deep_view()));
        }
        Json::Object(members)
    }

    /// The line of the head in a log: what the JSON writer gives for the
    /// head's encoding, which it can always be handed.
    pub fn to_line(&self) -> (line: Option<String>)
        ensures
            line.deep_view() == crate::json::json_text(encoded_meta(self@)),
            line is Some,
    {
        proof {
            lemma_meta_renderable(self@);
            crate::json::lemma_exact_is_written(encoded_meta(self@));
        }
        self.to_json().to_text()
    }

    /// Reads the head of a log from its line.
    pub fn from_line(line: &str) -> (meta: Option<SessionMeta>)
        ensures
            meta.deep_view() == (match crate::json::json_parsed(line@) {
                Some(tree) => decoded_meta(tree),
                None => None,
            }),
    {
        let json = Json::parse(line)?;
        SessionMeta::from_json(&json)
    }

    /// Decodes the head of a log.
    pub fn from_json(json: &Json) -> (meta: Option<SessionMeta>)
        ensures
            meta.deep_view() == decoded_meta(json@),
    {
        let id = json.get("id")?.as_str()?.to_string();
        let timestamp = json.get("timestamp")?.as_str()?.to_string();
        let instructions = text_or_null(json, "instructions")?;
        let git = match json.get("git") {
            None | Some(Json::Null) => None,
            Some(value) => {
                let commit_hash = text_or_null(value, "commit_hash")?;
                let branch = text_or_null(value, "branch")?;
                let repository_url = text_or_null(value, "repository_url")?;
                match value {
                    Json::Object(_) => Some(GitInfo { commit_hash, branch, repository_url }),
                    _ => {
                        return None;
                    },
                }
            },
        };
        Some(SessionMeta { id, timestamp, instructions, git })
    }
}

fn text_or_null(json: &Json, key: &str) -> (text: Option<Option<String>>)
    ensures
        text.deep_view() == nullable_text(json@, key@),
{
    match json.get(key) {
        None | Some(Json::Null) => Some(None),
        Some(Json::Text(s)) => Some(Some(s.clone())),
        _ => None,
    }
}

/// The encoding of what is known of a repository can be written.
pub proof fn lemma_git_renderable(git: GitInfoView)
    ensures
        crate::wire::renderable(encoded_git(git)),
{
    lemma_meta_names();
    let members = encoded_git(git)->Object_0;
    crate::json::lemma_object_wf(members);
    assert(members.len() <= 3);
    assert forall|i: int| 0 <= i < members.len() implies (#[trigger] members[i]).1 is Text && (
    members[i].0 == "commit_hash"@ || members[i].0 == "branch"@ || members[i].0 == "repository_url"@) by {
        assert(i == 0 || i == 1 || i == 2);
    }
    assert forall|i: int, j: int| 0 <= i < j < members.len() implies (#[trigger] members[i]).0 != (
    #[trigger] members[j]).0 by {
        assert(i == 0 || i == 1);
        assert(j == 1 || j == 2);
    }
    assert forall|i: int| 0 <= i < members.len() implies (#[trigger] members[i]).1.wf()
        && members[i].1.exact() by {
        assert(members[i].1 is Text);
    }
}

/// The encoding of the head of a log can be written, whatever the head
/// holds.
pub proof fn lemma_meta_renderable(meta: SessionMetaView)
    ensures
        crate::wire::renderable(encoded_meta(meta)),
{
    lemma_meta_names();
    let members = encoded_meta(meta)->Object_0;
    crate::json::lemma_object_wf(members);
    if meta.git is Some {
        lemma_git_renderable(meta.git->0);
    }
    assert(2 <= members.len() <= 4);
    assert(members[0] == ("id"@, JsonView::Text(meta.id)));
    assert(members[1] == ("timestamp"@, JsonView::Text(meta.timestamp)));
    assert forall|i: int| 2 <= i < members.len() implies (#[trigger] members[i]).0 == "instructions"@
        && members[i].1 is Text || (members[i].0 == "git"@ && meta.git is Some && members[i].1
        == encoded_git(meta.git->0)) by {
        assert(i == 2 || i == 3);
    }
    assert forall|i: int, j: int| 0 <= i < j < members.len() implies (#[trigger] members[i]).0 != (
    #[trigger] members[j]).0 by {
        assert(i == 0 || i == 1 || i == 2);
        assert(j == 1 || j == 2 || j == 3);
        if i == 2 && j == 3 {
            assert(members[2].0 == "instructions"@);
            assert(members[3].0 == "git"@);
        }
    }
    assert forall|i: int| 0 <= i < members.len() implies (#[trigger] members[i]).1.wf()
        && members[i].1.exact() by {
        assert(i == 0 || i == 1 || i == 2 || i == 3);
    }
}

/// 16 to the power of `width`.
pub open spec fn pow16(width: nat) -> nat
    decreases width,
{
    if width == 0 {
        1
    } else {
        16 * pow16((width - 1) as nat)
    }
}

/// Padding gives as many digits as it is asked for.
pub proof fn lemma_hex_padded_len(n: nat, width: nat)
    ensures
        hex_padded(n, width).len() == width,
    decreases width,
{
    if width > 0 {
        lemma_hex_padded_len(n / 16, (width - 1) as nat);
    }
}

/// Two numbers that `width` digits hold have the same digits only where
/// they are the same number.
pub proof fn lemma_hex_padded_injective(a: nat, b: nat, width: nat)
    requires
        a < pow16(width),
        b < pow16(width),
        hex_padded(a, width) == hex_padded(b, width),
    ensures
        a == b,
    decreases width,
{
    if width > 0 {
        let rest_a = hex_padded(a / 16, (width - 1) as nat);
        let rest_b = hex_padded(b / 16, (width - 1) as nat);
        let last_a = hex_char((a % 16) as int);
        let last_b = hex_char((b % 16) as int);
        assert(rest_a.push(last_a).drop_last() =~= rest_a);
        assert(rest_b.push(last_b).drop_last() =~= rest_b);
        assert(rest_a.push(last_a).last() == last_a);
        assert(rest_b.push(last_b).last() == last_b);
        assert(rest_a == rest_b);
        assert(last_a == last_b);
        assert(a % 16 == b % 16);
        lemma_hex_padded_injective(a / 16, b / 16, (width - 1) as nat);
    }
}

/// Every identifier of 128 bits is held by 32 digits.
pub proof fn lemma_u128_fits(value: u128)
    ensures
        (value as nat) < pow16(32),
{
    reveal_with_fuel(pow16, 33);
    assert(pow16(32) == 0x1_0000_0000_0000_0000_0000_0000_0000_0000nat);
}

/// The digits of an identifier's text, without its hyphens.
pub open spec fn without_hyphens(text: Seq<char>) -> Seq<char> {
    text.subrange(0, 8) + text.subrange(9, 13) + text.subrange(14, 18) + text.subrange(19, 23)
        + text.subrange(24, 36)
}

/// The text of an identifier has 36 characters, and without its hyphens
/// it is the identifier's 32 digits.
pub proof fn lemma_uuid_text_digits(value: u128)
    ensures
        uuid_text(value).len() == 36,
        without_hyphens(uuid_text(value)) == hex_padded(value as nat, 32),
{
    reveal_strlit("-");
    lemma_hex_padded_len(value as nat, 32);
    let digits = hex_padded(value as nat, 32);
    let text = uuid_text(value);
    assert(text.len() == 36);
    assert(without_hyphens(text) =~= digits);
}

/// No two sessions have the same text for their identifiers.
pub proof fn lemma_uuid_text_injective(a: u128, b: u128)
    requires
        uuid_text(a) == uuid_text(b),
    ensures
        a == b,
{
    lemma_uuid_text_digits(a);
    lemma_uuid_text_digits(b);
    lemma_u128_fits(a);
    lemma_u128_fits(b);
    lemma_hex_padded_injective(a as nat, b as nat, 32);
}

/// Padding gives as many decimal digits as it is asked for.
pub proof fn lemma_padded_decimal_len(n: nat, width: nat)
    ensures
        padded_decimal(n, width).len() == width,
    decreases width,
{
    if width > 0 {
        lemma_padded_decimal_len(n / 10, (width - 1) as nat);
    }
}

/// The time in a file name has 19 characters.
pub proof fn lemma_file_stamp_len(started: TimestampView)
    ensures
        started.file_stamp().len() == 19,
{
    reveal_strlit("-");
    reveal_strlit("T");
    lemma_padded_decimal_len(started.year as nat, 4);
    lemma_padded_decimal_len(started.month as nat, 2);
    lemma_padded_decimal_len(started.day as nat, 2);
    lemma_padded_decimal_len(started.hour as nat, 2);
    lemma_padded_decimal_len(started.minute as nat, 2);
    lemma_padded_decimal_len(started.second as nat, 2);
}

/// No two sessions share the name of a log: logs with the same name are
/// logs of the same session, started at the same second.
pub proof fn lemma_file_names_are_unique(
    started_a: TimestampView,
    a: SessionId,
    started_b: TimestampView,
    b: SessionId,
)
    requires
        rollout_file_name_of(started_a, a) == rollout_file_name_of(started_b, b),
    ensures
        a == b,
        started_a.file_stamp() == started_b.file_stamp(),
{
    reveal_strlit("rollout-");
    reveal_strlit("-");
    reveal_strlit(".jsonl");
    lemma_file_stamp_len(started_a);
    lemma_file_stamp_len(started_b);
    lemma_uuid_text_digits(a.value);
    lemma_uuid_text_digits(b.value);
    let name_a = rollout_file_name_of(started_a, a);
    let name_b = rollout_file_name_of(started_b, b);
    assert(name_a.subrange(8, 27) =~= started_a.file_stamp());
    assert(name_b.subrange(8, 27) =~= started_b.file_stamp());
    assert(name_a.subrange(28, 64) =~= uuid_text(a.value));
    assert(name_b.subrange(28, 64) =~= uuid_text(b.value));
    lemma_uuid_text_injective(a.value, b.value);
}

} // verus!
