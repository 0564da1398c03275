use codex_core::client_common::ResponseEvent;
use codex_core::models::ContentItem;
use codex_core::models::ResponseItem;
use codex_core::protocol::TokenUsage;
use codex_core::stream::decode_stream;
use codex_core::stream::DecoderState;
use codex_core::stream::Frame;
use codex_core::stream::ResponseStream;
use codex_core::stream::StreamError;

fn message() -> ResponseItem {
    ResponseItem::Message {
        role: "assistant".to_string(),
        content: vec![ContentItem::OutputText { text: "Hello".to_string() }],
    }
}

fn usage() -> TokenUsage {
    TokenUsage {
        input_tokens: 10,
        cached_input_tokens: Some(2),
        output_tokens: 5,
        reasoning_output_tokens: None,
        total_tokens: 15,
    }
}

#[test]
fn a_stream_gives_its_events_in_order() {
    let frames = vec![
        Frame::Created,
        Frame::OutputTextDelta("Hel".to_string()),
        Frame::OutputTextDelta("lo".to_string()),
        Frame::OutputItemDone(message()),
        Frame::Completed { response_id: "r1".to_string(), token_usage: Some(usage()) },
    ];
    let events = decode_stream(frames);
    assert_eq!(
        events,
        vec![
            Ok(ResponseEvent::Created),
            Ok(ResponseEvent::OutputTextDelta("Hel".to_string())),
            Ok(ResponseEvent::OutputTextDelta("lo".to_string())),
            Ok(ResponseEvent::OutputItemDone(message())),
            Ok(ResponseEvent::Completed { response_id: "r1".to_string(), token_usage: Some(usage()) }),
        ]
    );
}

#[test]
fn nothing_comes_after_the_end() {
    let frames = vec![
        Frame::Created,
        Frame::Failed { message: "overloaded".to_string() },
        Frame::OutputTextDelta("late".to_string()),
        Frame::Completed { response_id: "r2".to_string(), token_usage: None },
    ];
    assert_eq!(
        decode_stream(frames),
        vec![
            Ok(ResponseEvent::Created),
            Err(StreamError::Failed { message: "overloaded".to_string() }),
        ]
    );
    assert_eq!(decode_stream(vec![]), vec![Err(StreamError::ClosedBeforeCompleted)]);
    assert_eq!(
        decode_stream(vec![Frame::ReasoningSummaryDelta("hm".to_string())]),
        vec![
            Ok(ResponseEvent::ReasoningSummaryDelta("hm".to_string())),
            Err(StreamError::ClosedBeforeCompleted),
        ]
    );
}

#[test]
fn the_decoder_moves_from_state_to_state() {
    let mut stream = ResponseStream::new();
    assert_eq!(stream.state, DecoderState::AwaitingCreated);
    assert_eq!(stream.on_frame(Frame::Created), Some(Ok(ResponseEvent::Created)));
    assert_eq!(stream.state, DecoderState::Open);
    assert!(!stream.is_closed());
    assert_eq!(
        stream.on_frame(Frame::Completed { response_id: "r".to_string(), token_usage: None }),
        Some(Ok(ResponseEvent::Completed { response_id: "r".to_string(), token_usage: None }))
    );
    assert!(stream.is_closed());
    assert_eq!(stream.on_frame(Frame::Created), None);
    assert_eq!(stream.on_end(), None);
    let mut cut = ResponseStream::new();
    assert_eq!(cut.on_end(), Some(StreamError::ClosedBeforeCompleted));
    assert_eq!(cut.on_end(), None);
}
