use codex_core::git_info::GitInfo;
use codex_core::json::Json;
use codex_core::models::ContentItem;
use codex_core::models::FunctionCallOutputPayload;
use codex_core::models::LocalShellAction;
use codex_core::models::LocalShellExecAction;
use codex_core::models::LocalShellStatus;
use codex_core::models::ResponseItem;
use codex_core::rollout::encode_line;
use codex_core::rollout::is_persisted;
use codex_core::rollout::lines_for;
use codex_core::rollout::meta::month_length;
use codex_core::rollout::meta::rollout_file_name;
use codex_core::rollout::meta::SessionId;
use codex_core::rollout::meta::SessionMeta;
use codex_core::rollout::meta::Timestamp;
use codex_core::rollout::meta::SESSIONS_SUBDIR;
use codex_core::rollout::writer::frame_line;
use codex_core::rollout::writer::Phase;
use codex_core::rollout::writer::RolloutWriter;
use codex_core::rollout::writer::WriterAction;
use codex_core::rollout::writer::WriterEvent;
use codex_core::rollout::QueueOutcome;
use codex_core::rollout::RolloutError;
use codex_core::rollout::RolloutRecorder;
use codex_core::rollout::MAILBOX_CAPACITY;
use codex_core::wire::decode_line;

fn message(text: &str) -> ResponseItem {
    ResponseItem::Message {
        role: "user".to_string(),
        content: vec![ContentItem::InputText { text: text.to_string() }],
    }
}

fn reasoning() -> ResponseItem {
    ResponseItem::Reasoning { id: "r".to_string(), summary: vec![] }
}

fn output(call_id: &str) -> ResponseItem {
    ResponseItem::FunctionCallOutput {
        call_id: call_id.to_string(),
        output: FunctionCallOutputPayload {
            content: "data".to_string(),
            success: None,
            is_user_feedback: false,
        },
    }
}

fn unencodable() -> ResponseItem {
    ResponseItem::LocalShellCall {
        id: None,
        call_id: None,
        status: LocalShellStatus::Completed,
        action: LocalShellAction::Exec(LocalShellExecAction {
            command: vec![],
            timeout_ms: None,
            working_directory: None,
            env: Some(vec![("X".to_string(), "1".to_string()), ("X".to_string(), "1".to_string())]),
            user: None,
        }),
    }
}

#[test]
fn test_try_record_item_non_blocking() {
    let (tx, mut rx) = tokio::sync::mpsc::channel::<String>(MAILBOX_CAPACITY);
    let recorder = RolloutRecorder::new(tx);

    let test_data = Json::Object(vec![("test".to_string(), Json::Text("data".to_string()))]);
    let result = recorder.try_record_json(&test_data);

    assert!(result.is_ok());
    assert_eq!(rx.try_recv().ok(), Some("{\"test\":\"data\"}".to_string()));
    assert_eq!(recorder.try_record_item(&message("data")), Ok(()));
    assert_eq!(rx.try_recv().ok(), Some(encode_line(&message("data")).unwrap()));
}

#[test]
fn a_document_without_text_never_reaches_the_mailbox() {
    let (tx, mut rx) = tokio::sync::mpsc::channel::<String>(1);
    let recorder = RolloutRecorder::new(tx);
    let twice = Json::Object(vec![("a".to_string(), Json::Null), ("a".to_string(), Json::Null)]);
    assert_eq!(recorder.try_record_json(&twice), Err(RolloutError::Serialize));
    assert_eq!(recorder.try_record_json(&Json::Array(vec![Json::Decimal("one".to_string())])), Err(RolloutError::Serialize));
    assert!(rx.try_recv().is_err());
    let copy = recorder.clone();
    assert_eq!(copy.try_record_json(&Json::Null), Ok(()));
    assert_eq!(recorder.try_record_json(&Json::Null), Err(RolloutError::QueueFull));
    assert_eq!(rx.try_recv().ok(), Some("null".to_string()));
}

#[test]
fn a_full_mailbox_refuses_and_keeps_what_it_has() {
    let (tx, mut rx) = tokio::sync::mpsc::channel::<String>(2);
    let recorder = RolloutRecorder::new(tx);
    assert_eq!(recorder.try_record_item(&message("one")), Ok(()));
    assert_eq!(recorder.try_record_item(&message("two")), Ok(()));
    assert_eq!(recorder.try_record_item(&message("three")), Err(RolloutError::QueueFull));
    assert_eq!(recorder.try_record_item(&message("four")), Err(RolloutError::QueueFull));
    assert_eq!(rx.try_recv().ok(), Some(encode_line(&message("one")).unwrap()));
    assert_eq!(recorder.try_record_item(&message("five")), Ok(()));
    assert_eq!(rx.try_recv().ok(), Some(encode_line(&message("two")).unwrap()));
    assert_eq!(rx.try_recv().ok(), Some(encode_line(&message("five")).unwrap()));
    assert!(rx.try_recv().is_err());
    drop(rx);
    assert_eq!(recorder.try_record_item(&message("six")), Err(RolloutError::QueueClosed));
    assert!(recorder.sender().is_closed());
}

#[test]
fn an_item_without_a_line_never_reaches_the_mailbox() {
    let (tx, mut rx) = tokio::sync::mpsc::channel::<String>(1);
    let recorder = RolloutRecorder::new(tx);
    assert_eq!(recorder.try_record_item(&unencodable()), Err(RolloutError::Unencodable));
    assert!(rx.try_recv().is_err());
    assert_eq!(recorder.try_record_item(&message("fits")), Ok(()));
}

#[test]
fn queue_outcomes_are_told_apart() {
    assert_eq!(RolloutRecorder::queue_result(QueueOutcome::Queued), Ok(()));
    assert_eq!(RolloutRecorder::queue_result(QueueOutcome::Full), Err(RolloutError::QueueFull));
    assert_eq!(RolloutRecorder::queue_result(QueueOutcome::Closed), Err(RolloutError::QueueClosed));
    assert_ne!(RolloutError::QueueFull.message(), RolloutError::QueueClosed.message());
    assert_eq!(RolloutError::Serialize.message(), "failed to serialize response items");
    assert_eq!(RolloutError::Unencodable.message(), "failed to serialize response items");
    assert_eq!(MAILBOX_CAPACITY, 256);
}

#[test]
fn only_some_items_are_persisted() {
    assert!(is_persisted(&message("m")));
    assert!(is_persisted(&output("c")));
    assert!(is_persisted(&unencodable()));
    assert!(is_persisted(&ResponseItem::FunctionCall {
        name: "n".to_string(),
        arguments: "{}".to_string(),
        call_id: "c".to_string(),
    }));
    assert!(!is_persisted(&reasoning()));
    assert!(!is_persisted(&ResponseItem::Other));
}

#[test]
fn a_batch_keeps_its_order_and_leaves_out_reasoning() {
    let items = vec![message("1"), reasoning(), output("c2"), ResponseItem::Other, message("3")];
    let batch = lines_for(&items);
    assert_eq!(batch.error, None);
    assert_eq!(batch.consumed, 5);
    assert_eq!(batch.lines.len(), 3);
    let back: Vec<ResponseItem> = batch.lines.iter().map(|l| decode_line(l).unwrap()).collect();
    assert_eq!(back, vec![message("1"), output("c2"), message("3")]);
    assert_eq!(batch.lines[0], "{\"type\":\"message\",\"role\":\"user\",\"content\":[{\"type\":\"input_text\",\"text\":\"1\"}]}");
    assert_eq!(lines_for(&[]).lines.len(), 0);
    assert_eq!(lines_for(&[reasoning()]).lines.len(), 0);
}

#[test]
fn a_batch_stops_at_the_item_that_has_no_line() {
    let items = vec![reasoning(), message("1"), unencodable(), message("2")];
    let batch = lines_for(&items);
    assert_eq!(batch.consumed, 2);
    assert_eq!(batch.error, Some(RolloutError::Unencodable));
    assert_eq!(batch.lines, vec![encode_line(&message("1")).unwrap()]);
}

fn run(writer: &mut RolloutWriter, events: Vec<WriterEvent>) -> (Vec<String>, Vec<WriterAction>) {
    let mut log = Vec::new();
    let mut actions = Vec::new();
    let mut pending: Option<String> = None;
    for event in events {
        if let WriterEvent::Appended { ok: true } = &event {
            if writer.phase() == Phase::Writing {
                log.push(pending.take().unwrap());
            }
        }
        let action = writer.step(event);
        if let WriterAction::Append { line } = &action {
            pending = Some(line.clone());
        }
        actions.push(action);
    }
    (log, actions)
}

#[test]
fn the_head_is_first_and_the_lines_follow_in_order() {
    let mut writer = RolloutWriter::new();
    assert_eq!(writer.phase(), Phase::AwaitingStart);
    let (log, actions) = run(
        &mut writer,
        vec![
            WriterEvent::Started { meta_line: Some("head".to_string()) },
            WriterEvent::Appended { ok: true },
            WriterEvent::Queued { line: "a".to_string() },
            WriterEvent::Appended { ok: true },
            WriterEvent::Queued { line: "b".to_string() },
            WriterEvent::Appended { ok: true },
        ],
    );
    assert_eq!(log, vec!["head", "a", "b"]);
    assert_eq!(
        actions,
        vec![
            WriterAction::Append { line: "head".to_string() },
            WriterAction::Receive,
            WriterAction::Append { line: "a".to_string() },
            WriterAction::Receive,
            WriterAction::Append { line: "b".to_string() },
            WriterAction::Receive,
        ]
    );
    assert_eq!(writer.phase(), Phase::Idle);
    assert_eq!(writer.step(WriterEvent::QueueClosed), WriterAction::Stop);
    assert_eq!(writer.phase(), Phase::Stopped);
}

#[test]
fn a_failed_write_stops_the_writer_for_good() {
    let mut writer = RolloutWriter::new();
    let (log, actions) = run(
        &mut writer,
        vec![
            WriterEvent::Started { meta_line: Some("head".to_string()) },
            WriterEvent::Appended { ok: true },
            WriterEvent::Queued { line: "a".to_string() },
            WriterEvent::Appended { ok: false },
            WriterEvent::Queued { line: "b".to_string() },
            WriterEvent::Appended { ok: true },
            WriterEvent::Started { meta_line: Some("again".to_string()) },
        ],
    );
    assert_eq!(log, vec!["head"]);
    assert_eq!(actions[3], WriterAction::Stop);
    assert_eq!(actions[4], WriterAction::Stop);
    assert_eq!(actions[5], WriterAction::Stop);
    assert_eq!(actions[6], WriterAction::Stop);
    assert_eq!(writer.phase(), Phase::Stopped);
}

#[test]
fn a_head_that_cannot_be_written_leaves_the_file_empty() {
    let mut writer = RolloutWriter::new();
    assert_eq!(writer.step(WriterEvent::Started { meta_line: None }), WriterAction::Stop);
    assert_eq!(writer.phase(), Phase::Stopped);
    let mut early = RolloutWriter::new();
    assert_eq!(early.step(WriterEvent::Queued { line: "a".to_string() }), WriterAction::Stop);
    let mut twice = RolloutWriter::new();
    let (log, _) = run(
        &mut twice,
        vec![
            WriterEvent::Started { meta_line: Some("h".to_string()) },
            WriterEvent::Started { meta_line: Some("h".to_string()) },
            WriterEvent::Appended { ok: true },
        ],
    );
    assert_eq!(log, Vec::<String>::new());
}

#[test]
fn a_line_is_framed_by_a_line_feed() {
    assert_eq!(frame_line("{}"), b"{}\n".to_vec());
    assert_eq!(frame_line(""), b"\n".to_vec());
    assert_eq!(frame_line("\u{e9}"), vec![0xc3, 0xa9, 0x0a]);
}

#[test]
fn times_are_written_with_leading_zeros() {
    let t = Timestamp::new(2025, 5, 7, 17, 24, 21, 5).unwrap();
    assert_eq!(t.file_stamp(), "2025-05-07T17-24-21");
    assert_eq!(t.iso_millis(), "2025-05-07T17:24:21.005Z");
    let first = Timestamp::new(0, 1, 1, 0, 0, 0, 0).unwrap();
    assert_eq!(first.file_stamp(), "0000-01-01T00-00-00");
    assert_eq!(first.iso_millis(), "0000-01-01T00:00:00.000Z");
    let last = Timestamp::new(9999, 12, 31, 23, 59, 59, 999).unwrap();
    assert_eq!(last.iso_millis(), "9999-12-31T23:59:59.999Z");
    // The library's text is the text of the `time` crate for the same instant.
    let format = time::format_description::parse("[year]-[month]-[day]T[hour]-[minute]-[second]").unwrap();
    let date = time::Date::from_calendar_date(2025, time::Month::May, 7).unwrap();
    let instant = time::PrimitiveDateTime::new(date, time::Time::from_hms_milli(17, 24, 21, 5).unwrap());
    assert_eq!(t.file_stamp(), instant.format(&format).unwrap());
    let iso = time::format_description::parse(
        "[year]-[month]-[day]T[hour]:[minute]:[second].[subsecond digits:3]Z",
    )
    .unwrap();
    assert_eq!(t.iso_millis(), instant.format(&iso).unwrap());
}

#[test]
fn only_points_in_time_are_timestamps() {
    assert!(Timestamp::new(2024, 2, 29, 0, 0, 0, 0).is_some());
    assert!(Timestamp::new(2023, 2, 29, 0, 0, 0, 0).is_none());
    assert!(Timestamp::new(1900, 2, 29, 0, 0, 0, 0).is_none());
    assert!(Timestamp::new(2000, 2, 29, 0, 0, 0, 0).is_some());
    assert!(Timestamp::new(2025, 4, 31, 0, 0, 0, 0).is_none());
    assert!(Timestamp::new(2025, 0, 1, 0, 0, 0, 0).is_none());
    assert!(Timestamp::new(2025, 13, 1, 0, 0, 0, 0).is_none());
    assert!(Timestamp::new(2025, 1, 0, 0, 0, 0, 0).is_none());
    assert!(Timestamp::new(2025, 1, 1, 24, 0, 0, 0).is_none());
    assert!(Timestamp::new(2025, 1, 1, 0, 60, 0, 0).is_none());
    assert!(Timestamp::new(2025, 1, 1, 0, 0, 60, 0).is_none());
    assert!(Timestamp::new(2025, 1, 1, 0, 0, 0, 1000).is_none());
    assert!(Timestamp::new(10000, 1, 1, 0, 0, 0, 0).is_none());
    assert_eq!(month_length(2024, 2), 29);
    assert_eq!(month_length(2025, 2), 28);
    assert_eq!(month_length(2025, 9), 30);
    assert_eq!(month_length(2025, 12), 31);
    assert_eq!(month_length(2025, 0), 0);
}

#[test]
fn a_log_is_named_by_its_start_and_its_session() {
    let id = SessionId { value: 0x5973b6c0_94b8_487b_a530_2aeb6098ae0e };
    assert_eq!(id.to_text(), "5973b6c0-94b8-487b-a530-2aeb6098ae0e");
    assert_eq!(SessionId { value: 1 }.to_text(), "00000000-0000-0000-0000-000000000001");
    let started = Timestamp::new(2025, 5, 7, 17, 24, 21, 0).unwrap();
    assert_eq!(
        rollout_file_name(&started, &id),
        "rollout-2025-05-07T17-24-21-5973b6c0-94b8-487b-a530-2aeb6098ae0e.jsonl"
    );
    assert_eq!(id.to_text(), uuid::Uuid::from_u128(id.value).to_string());
    assert_eq!(SESSIONS_SUBDIR, "sessions");
}

#[test]
fn the_head_of_a_log_decodes_to_what_it_was() {
    let id = SessionId { value: 7 };
    let started = Timestamp::new(2025, 5, 7, 17, 24, 21, 123).unwrap();
    let bare = SessionMeta::new(&id, &started, None, None);
    assert_eq!(
        bare.to_line().unwrap(),
        "{\"id\":\"00000000-0000-0000-0000-000000000007\",\"timestamp\":\"2025-05-07T17:24:21.123Z\"}"
    );
    assert_eq!(SessionMeta::from_line(&bare.to_line().unwrap()), Some(bare));
    let full = SessionMeta::new(
        &id,
        &started,
        Some("be brief".to_string()),
        Some(GitInfo {
            commit_hash: Some("0123456789abcdef0123456789abcdef01234567".to_string()),
            branch: None,
            repository_url: Some("https://example.com/repo.git".to_string()),
        }),
    );
    assert_eq!(
        full.to_line().unwrap(),
        "{\"id\":\"00000000-0000-0000-0000-000000000007\",\"timestamp\":\"2025-05-07T17:24:21.123Z\",\"instructions\":\"be brief\",\"git\":{\"commit_hash\":\"0123456789abcdef0123456789abcdef01234567\",\"repository_url\":\"https://example.com/repo.git\"}}"
    );
    assert_eq!(SessionMeta::from_json(&full.to_json()), Some(full.clone()));
    assert_eq!(SessionMeta::from_line(&full.to_line().unwrap()), Some(full));
    let empty_git = SessionMeta::new(&id, &started, None, Some(GitInfo::default()));
    assert_eq!(SessionMeta::from_line(&empty_git.to_line().unwrap()), Some(empty_git));
    // An item is no head, and a head is no item of a known kind.
    assert_eq!(SessionMeta::from_line(&encode_line(&message("m")).unwrap()), None);
    assert_eq!(SessionMeta::from_line("{\"id\":\"x\",\"timestamp\":\"t\",\"git\":\"main\"}"), None);
    assert_eq!(SessionMeta::from_line("{\"id\":\"x\"}"), None);
}

#[test]
fn a_whole_session_is_logged_in_order() {
    let id = SessionId { value: 9 };
    let started = Timestamp::new(2025, 1, 2, 3, 4, 5, 6).unwrap();
    let head = SessionMeta::new(&id, &started, None, None);
    let first = lines_for(&[message("1"), reasoning()]);
    let second = lines_for(&[output("c"), ResponseItem::Other, message("2")]);
    let mut events = vec![
        WriterEvent::Started { meta_line: head.to_line() },
        WriterEvent::Appended { ok: true },
    ];
    for line in first.lines.iter().chain(second.lines.iter()) {
        events.push(WriterEvent::Queued { line: line.clone() });
        events.push(WriterEvent::Appended { ok: true });
    }
    let mut writer = RolloutWriter::new();
    let (log, _) = run(&mut writer, events);
    assert_eq!(log.len(), 4);
    assert_eq!(SessionMeta::from_line(&log[0]), Some(head));
    assert!(log[1..].iter().all(|l| SessionMeta::from_line(l).is_none()));
    let items: Vec<ResponseItem> = log[1..].iter().map(|l| decode_line(l).unwrap()).collect();
    assert_eq!(items, vec![message("1"), output("c"), message("2")]);
}

#[test]
fn sending_stops_at_the_first_send_that_fails() {
    let batch = lines_for(&[message("1"), message("2")]);
    assert_eq!(batch.next_to_send(0, true), Some(&batch.lines[0]));
    assert_eq!(batch.next_to_send(1, true), Some(&batch.lines[1]));
    assert_eq!(batch.next_to_send(2, true), None);
    assert_eq!(batch.next_to_send(1, false), None);
    assert_eq!(batch.result_after(true), Ok(()));
    assert_eq!(batch.result_after(false), Err(RolloutError::QueueClosed));
    let short = lines_for(&[message("1"), unencodable()]);
    assert_eq!(short.result_after(true), Err(RolloutError::Unencodable));
    assert_eq!(short.result_after(false), Err(RolloutError::QueueClosed));
}

#[test]
fn what_a_log_does_not_keep_is_not_offered() {
    let (tx, mut rx) = tokio::sync::mpsc::channel::<String>(1);
    let recorder = RolloutRecorder::new(tx);
    assert_eq!(recorder.try_record_item(&reasoning()), Ok(()));
    assert_eq!(recorder.try_record_item(&ResponseItem::Other), Ok(()));
    assert!(rx.try_recv().is_err());
    assert_eq!(RolloutRecorder::line_to_offer(&reasoning()), Ok(None));
    assert_eq!(RolloutRecorder::line_to_offer(&ResponseItem::Other), Ok(None));
    assert_eq!(RolloutRecorder::line_to_offer(&message("m")), Ok(Some(encode_line(&message("m")).unwrap())));
    assert_eq!(RolloutRecorder::line_to_offer(&unencodable()), Err(RolloutError::Unencodable));
    assert_eq!(recorder.try_record_item(&message("m")), Ok(()));
    // With the mailbox full, an item that is not kept still succeeds.
    assert_eq!(recorder.try_record_item(&message("n")), Err(RolloutError::QueueFull));
    assert_eq!(recorder.try_record_item(&reasoning()), Ok(()));
    drop(rx);
    assert_eq!(recorder.try_record_item(&ResponseItem::Other), Ok(()));
}
