use codex_core::json::Json;
use codex_core::models::CallToolResult;
use codex_core::models::ContentItem;
use codex_core::models::FunctionCallOutputPayload;
use codex_core::models::LocalShellAction;
use codex_core::models::LocalShellExecAction;
use codex_core::models::LocalShellStatus;
use codex_core::models::ReasoningItemReasoningSummary;
use codex_core::models::ResponseInputItem;
use codex_core::models::ResponseItem;
use codex_core::models::ShellToolCallParams;
use codex_core::protocol::InputItem;
use codex_core::rollout::encode_line;
use codex_core::rollout::RolloutError;
use codex_core::wire::decode_item;
use codex_core::wire::decode_line;
use codex_core::wire::encode_item;

fn input_json(item: ResponseInputItem) -> Json {
    let text = encode_line(&ResponseItem::from(item)).unwrap();
    Json::parse(&text).unwrap()
}

#[test]
fn serializes_success_as_object_with_flag() {
    let item = ResponseInputItem::FunctionCallOutput {
        call_id: "call1".into(),
        output: FunctionCallOutputPayload {
            content: "ok".into(),
            success: None,
            is_user_feedback: false,
        },
    };

    let v = input_json(item);

    assert_eq!(v.get("output").unwrap().get("content").unwrap().as_str().unwrap(), "ok");
    assert!(!v.get("output").unwrap().get("is_user_feedback").unwrap().as_bool().unwrap());
}

#[test]
fn serializes_failure_with_flag() {
    let item = ResponseInputItem::FunctionCallOutput {
        call_id: "call1".into(),
        output: FunctionCallOutputPayload {
            content: "bad".into(),
            success: Some(false),
            is_user_feedback: true,
        },
    };

    let v = input_json(item);

    assert_eq!(v.get("output").unwrap().get("content").unwrap().as_str().unwrap(), "bad");
    assert!(v.get("output").unwrap().get("is_user_feedback").unwrap().as_bool().unwrap());
}

#[test]
fn deserialize_shell_tool_call_params() {
    let json = r#"{
            "command": ["ls", "-l"],
            "workdir": "/tmp",
            "timeout": 1000
        }"#;

    let params: ShellToolCallParams = ShellToolCallParams::parse(json).unwrap();
    assert_eq!(
        ShellToolCallParams {
            command: vec!["ls".to_string(), "-l".to_string()],
            workdir: Some("/tmp".to_string()),
            timeout_ms: Some(1000),
        },
        params
    );
}

#[test]
fn deserialize_user_feedback() {
    let json = r#"{"type": "function_call_output", "call_id": "call_123", "output": {"content": "This is a test feedback", "success": null, "is_user_feedback": true}}"#;
    let feedback: ResponseItem = decode_line(json).unwrap();
    if let ResponseItem::FunctionCallOutput { call_id, output } = feedback {
        assert_eq!(call_id, "call_123");
        assert_eq!(output.content, "This is a test feedback");
        assert_eq!(output.success, None);
        assert!(output.is_user_feedback);
    } else {
        panic!("Expected FunctionCallOutput variant");
    }
}

#[test]
fn serialize_deserialize_response_input_user_feedback() {
    let user_feedback = ResponseInputItem::FunctionCallOutput {
        call_id: "call_456".to_string(),
        output: FunctionCallOutputPayload {
            content: "Test user feedback".to_string(),
            success: None,
            is_user_feedback: true,
        },
    };

    let v = input_json(user_feedback);
    assert_eq!(v.get("output").unwrap().get("content").unwrap().as_str(), Some("Test user feedback"));
    assert_eq!(v.get("output").unwrap().get("is_user_feedback").unwrap().as_bool(), Some(true));
}

#[test]
fn user_feedback_to_llm_compatible_conversion() {
    let user_feedback = ResponseItem::FunctionCallOutput {
        call_id: "call_6789".to_string(),
        output: FunctionCallOutputPayload {
            content: "This is user feedback".to_string(),
            success: None,
            is_user_feedback: true,
        },
    };

    assert!(user_feedback.is_user_feedback());

    if let ResponseItem::FunctionCallOutput { call_id, output } = user_feedback {
        assert_eq!(call_id, "call_6789");
        assert_eq!(output.content, "This is user feedback");
        assert_eq!(output.success, None);
        assert!(output.is_user_feedback);
    } else {
        panic!("Expected FunctionCallOutput variant");
    }
}

#[test]
fn non_user_feedback_to_llm_compatible_unchanged() {
    let message = ResponseItem::Message {
        role: "user".to_string(),
        content: vec![ContentItem::InputText {
            text: "Hello".to_string(),
        }],
    };

    assert!(!message.is_user_feedback());

    if let ResponseItem::Message { role, content } = message {
        assert_eq!(role, "user");
        assert_eq!(content.len(), 1);
    } else {
        panic!("Expected Message variant to remain unchanged");
    }
}

#[test]
fn json_text_round_trip() {
    let doc = Json::Object(vec![
        ("b".to_string(), Json::Array(vec![Json::Number(1), Json::Null, Json::Bool(true)])),
        ("a".to_string(), Json::Text("x\"y".to_string())),
    ]);
    let text = doc.to_text().unwrap();
    assert_eq!(text, "{\"b\":[1,null,true],\"a\":\"x\\\"y\"}");
    assert_eq!(Json::parse(&text), Some(doc));
    assert_eq!(
        Json::parse("{\"n\": -1.5}"),
        Some(Json::Object(vec![("n".to_string(), Json::Decimal("-1.5".to_string()))]))
    );
    assert_eq!(Json::parse("{"), None);
    let numbers = Json::Array(vec![Json::Negative(-5), Json::Negative(i64::MIN), Json::Number(u64::MAX)]);
    assert_eq!(numbers.to_text().unwrap(), "[-5,-9223372036854775808,18446744073709551615]");
    assert_eq!(Json::parse("[-5, -9223372036854775808, 18446744073709551615]"), Some(numbers));
    assert_eq!(Json::parse("1e3"), Some(Json::Decimal("1000.0".to_string())));
    assert_eq!(Json::parse("-0"), Some(Json::Decimal("-0.0".to_string())));
    assert_eq!(Json::parse("0"), Some(Json::Number(0)));
    assert_eq!(Json::Negative(-1).as_negative(), Some(-1));
    assert_eq!(Json::Number(1).as_negative(), None);
}

#[test]
fn json_without_text() {
    let twice = Json::Object(vec![
        ("a".to_string(), Json::Null),
        ("a".to_string(), Json::Bool(false)),
    ]);
    assert!(!twice.is_wf());
    assert_eq!(twice.to_text(), None);
    for text in ["", "abc", "5", "-5", "0x10", "1.5 ", " 1.5", "NaN", "1e999", "1.", ".5"] {
        let unread = Json::Array(vec![Json::Decimal(text.to_string())]);
        assert!(!unread.is_writable(), "{text}");
        assert!(!unread.is_exact());
        assert_eq!(unread.to_text(), None, "{text}");
    }
    let kept = Json::Array(vec![
        Json::Decimal("1.5".to_string()),
        Json::Decimal("-0.0".to_string()),
        Json::Decimal("1e+30".to_string()),
        Json::Decimal("0.1".to_string()),
    ]);
    assert!(kept.is_writable());
    assert!(!kept.is_exact());
    assert_eq!(kept.to_text().unwrap(), "[1.5,-0.0,1e+30,0.1]");
    assert_eq!(Json::parse("[1.5, -0.0, 1e30, 0.1]"), Some(kept));
    // A fraction is written as the number that its text is read as.
    let spelled = Json::Array(vec![
        Json::Decimal("1.50".to_string()),
        Json::Decimal("1e3".to_string()),
        Json::Decimal("-2.5E-1".to_string()),
        Json::Decimal("18446744073709551616".to_string()),
    ]);
    assert!(spelled.is_writable());
    assert_eq!(spelled.to_text().unwrap(), "[1.5,1000.0,-0.25,1.8446744073709552e+19]");
    assert_eq!(Json::Decimal("1.5".to_string()).as_decimal(), Some("1.5"));
    assert_eq!(Json::Number(1).as_decimal(), None);
    assert!(Json::Array(vec![Json::Number(1), Json::Negative(-1)]).is_exact());
    assert!(!Json::Negative(0).is_writable());
    assert!(!Json::Negative(0).is_exact());
    assert_eq!(Json::Negative(3).to_text(), None);
    assert_eq!(twice.get("a"), Some(&Json::Null));
    assert_eq!(twice.position("a"), Some(0));
    assert_eq!(twice.position("b"), None);
    assert_eq!(Json::Number(7).as_u64(), Some(7));
    assert!(Json::Null.is_null());
    assert!(Json::Text(String::new()).is_string());
    assert_eq!(twice.clone(), twice);
}

fn sample_items() -> Vec<ResponseItem> {
    vec![
        ResponseItem::Message {
            role: "assistant".to_string(),
            content: vec![
                ContentItem::InputText { text: "a".to_string() },
                ContentItem::InputImage { image_url: "http://x/y.png".to_string() },
                ContentItem::OutputText { text: "line\nbreak \u{e9}".to_string() },
            ],
        },
        ResponseItem::Reasoning {
            id: "r1".to_string(),
            summary: vec![ReasoningItemReasoningSummary::SummaryText { text: "why".to_string() }],
        },
        ResponseItem::LocalShellCall {
            id: None,
            call_id: Some("c9".to_string()),
            status: LocalShellStatus::InProgress,
            action: LocalShellAction::Exec(LocalShellExecAction {
                command: vec!["ls".to_string(), "-l".to_string()],
                timeout_ms: Some(u64::MAX),
                working_directory: Some("/tmp".to_string()),
                env: Some(vec![
                    ("B".to_string(), "2".to_string()),
                    ("A".to_string(), "1".to_string()),
                ]),
                user: None,
            }),
        },
        ResponseItem::LocalShellCall {
            id: Some("i".to_string()),
            call_id: None,
            status: LocalShellStatus::Completed,
            action: LocalShellAction::Exec(LocalShellExecAction {
                command: vec![],
                timeout_ms: None,
                working_directory: None,
                env: None,
                user: Some("root".to_string()),
            }),
        },
        ResponseItem::FunctionCall {
            name: "shell".to_string(),
            arguments: "{\"command\":[\"ls\"]}".to_string(),
            call_id: "c1".to_string(),
        },
        ResponseItem::FunctionCallOutput {
            call_id: "c1".to_string(),
            output: FunctionCallOutputPayload {
                content: "done".to_string(),
                success: Some(true),
                is_user_feedback: false,
            },
        },
    ]
}

#[test]
fn every_variant_round_trips_through_its_tree() {
    for item in sample_items() {
        assert_eq!(decode_item(&encode_item(&item)), Some(item));
    }
    assert_eq!(decode_item(&encode_item(&ResponseItem::Other)), Some(ResponseItem::Other));
}

#[test]
fn every_variant_round_trips_through_its_line() {
    for item in sample_items() {
        let line = encode_line(&item).unwrap();
        assert!(!line.contains('\n'));
        assert_eq!(decode_line(&line), Some(item));
    }
}

#[test]
fn lines_are_written_as_the_wire_has_them() {
    let items = sample_items();
    assert_eq!(
        encode_line(&items[4]).unwrap(),
        "{\"type\":\"function_call\",\"name\":\"shell\",\"arguments\":\"{\\\"command\\\":[\\\"ls\\\"]}\",\"call_id\":\"c1\"}"
    );
    assert_eq!(
        encode_line(&items[5]).unwrap(),
        "{\"type\":\"function_call_output\",\"call_id\":\"c1\",\"output\":{\"content\":\"done\",\"success\":true,\"is_user_feedback\":false}}"
    );
    assert_eq!(
        encode_line(&items[3]).unwrap(),
        "{\"type\":\"local_shell_call\",\"id\":\"i\",\"call_id\":null,\"status\":\"completed\",\"action\":{\"type\":\"exec\",\"command\":[],\"timeout_ms\":null,\"working_directory\":null,\"env\":null,\"user\":\"root\"}}"
    );
    assert_eq!(encode_line(&ResponseItem::Other).unwrap(), "{\"type\":\"other\"}");
}

#[test]
fn unknown_kinds_decode_to_other() {
    assert_eq!(decode_line("{\"type\":\"web_search_call\",\"id\":\"w\"}"), Some(ResponseItem::Other));
    assert_eq!(decode_line("{\"id\":\"w\"}"), None);
    assert_eq!(decode_line("{\"type\":7}"), None);
    assert_eq!(decode_line("[]"), None);
    assert_eq!(decode_line("not json"), None);
    assert_eq!(decode_line("{\"type\":\"message\",\"role\":\"user\"}"), None);
    assert_eq!(
        decode_line("{\"type\":\"message\",\"role\":\"user\",\"content\":[{\"type\":\"video\"}]}"),
        None
    );
    assert_eq!(
        decode_line("{\"type\":\"function_call_output\",\"call_id\":\"c\",\"output\":{\"content\":\"x\"}}"),
        Some(ResponseItem::FunctionCallOutput {
            call_id: "c".to_string(),
            output: FunctionCallOutputPayload {
                content: "x".to_string(),
                success: None,
                is_user_feedback: false,
            },
        })
    );
    assert_eq!(
        decode_line("{\"type\":\"local_shell_call\",\"status\":\"paused\",\"action\":{\"type\":\"exec\",\"command\":[]}}"),
        None
    );
    assert_eq!(
        decode_line("{\"type\":\"local_shell_call\",\"status\":\"incomplete\",\"action\":{\"type\":\"exec\",\"command\":[\"a\"],\"timeout_ms\":1.5}}"),
        None
    );
}

#[test]
fn an_environment_with_a_name_twice_has_no_line() {
    let item = ResponseItem::LocalShellCall {
        id: None,
        call_id: None,
        status: LocalShellStatus::Incomplete,
        action: LocalShellAction::Exec(LocalShellExecAction {
            command: vec!["env".to_string()],
            timeout_ms: None,
            working_directory: None,
            env: Some(vec![
                ("A".to_string(), "1".to_string()),
                ("A".to_string(), "2".to_string()),
            ]),
            user: None,
        }),
    };
    assert!(!item.is_wf());
    assert_eq!(encode_line(&item), Err(RolloutError::Unencodable));
    assert!(sample_items().iter().all(|i| i.is_wf()));
}

#[test]
fn shell_params_need_a_command() {
    assert_eq!(ShellToolCallParams::parse("{\"workdir\":\"/\"}"), None);
    assert_eq!(ShellToolCallParams::parse("{\"command\":\"ls\"}"), None);
    assert_eq!(
        ShellToolCallParams::parse("{\"command\":[],\"timeout\":null}"),
        Some(ShellToolCallParams { command: vec![], workdir: None, timeout_ms: None })
    );
}

#[test]
fn tool_outcomes_become_function_call_outputs() {
    let ok = ResponseItem::from(ResponseInputItem::McpToolCallOutput {
        call_id: "t1".to_string(),
        result: Ok(CallToolResult::Serialized { json: "{\"content\":[]}".to_string() }),
    });
    assert_eq!(
        ok,
        ResponseItem::FunctionCallOutput {
            call_id: "t1".to_string(),
            output: FunctionCallOutputPayload {
                content: "{\"content\":[]}".to_string(),
                success: Some(true),
                is_user_feedback: false,
            },
        }
    );
    let failed = ResponseItem::from_input_item(ResponseInputItem::McpToolCallOutput {
        call_id: "t2".to_string(),
        result: Err("no \"such\" tool".to_string()),
    });
    assert_eq!(
        failed,
        ResponseItem::FunctionCallOutput {
            call_id: "t2".to_string(),
            output: FunctionCallOutputPayload {
                content: "err: \"no \\\"such\\\" tool\"".to_string(),
                success: Some(false),
                is_user_feedback: false,
            },
        }
    );
    let unwritten = ResponseItem::from(ResponseInputItem::McpToolCallOutput {
        call_id: "t3".to_string(),
        result: Ok(CallToolResult::NotSerialized { error: "key must be a string".to_string() }),
    });
    assert_eq!(
        unwritten,
        ResponseItem::FunctionCallOutput {
            call_id: "t3".to_string(),
            output: FunctionCallOutputPayload {
                content: "JSON serialization error: key must be a string".to_string(),
                success: Some(true),
                is_user_feedback: false,
            },
        }
    );
    let boom = ResponseItem::from(ResponseInputItem::McpToolCallOutput {
        call_id: "c1".to_string(),
        result: Err("boom".to_string()),
    });
    assert_eq!(
        boom,
        ResponseItem::FunctionCallOutput {
            call_id: "c1".to_string(),
            output: FunctionCallOutputPayload {
                content: "err: \"boom\"".to_string(),
                success: Some(false),
                is_user_feedback: false,
            },
        }
    );
    let message = ResponseInputItem::Message { role: "user".to_string(), content: vec![] };
    assert_eq!(
        ResponseItem::from(message.clone()),
        ResponseItem::Message { role: "user".to_string(), content: vec![] }
    );
}

#[test]
fn input_becomes_a_user_message() {
    let items = vec![
        InputItem::Text { text: "look".to_string() },
        InputItem::LocalImage {
            path: "/tmp/gone.png".to_string(),
            extension: Some("png".to_string()),
            bytes: None,
        },
        InputItem::Image { image_url: "https://example.com/a.png".to_string() },
        InputItem::LocalImage {
            path: "/tmp/a.PNG".to_string(),
            extension: Some("PNG".to_string()),
            bytes: Some(b"hello world~".to_vec()),
        },
        InputItem::LocalImage {
            path: "/tmp/blob".to_string(),
            extension: None,
            bytes: Some(vec![0xff]),
        },
        InputItem::LocalImage {
            path: "/tmp/blob.zzzunknown".to_string(),
            extension: Some("zzzunknown".to_string()),
            bytes: Some(vec![]),
        },
    ];
    let message = ResponseInputItem::from(items);
    assert_eq!(
        message,
        ResponseInputItem::Message {
            role: "user".to_string(),
            content: vec![
                ContentItem::InputText { text: "look".to_string() },
                ContentItem::InputImage { image_url: "https://example.com/a.png".to_string() },
                ContentItem::InputImage {
                    image_url: "data:image/png;base64,aGVsbG8gd29ybGR+".to_string()
                },
                ContentItem::InputImage {
                    image_url: "data:application/octet-stream;base64,/w==".to_string()
                },
                ContentItem::InputImage {
                    image_url: "data:application/octet-stream;base64,".to_string()
                },
            ],
        }
    );
}

#[test]
fn payload_reads_as_its_content() {
    let payload = FunctionCallOutputPayload {
        content: "out".to_string(),
        success: Some(false),
        is_user_feedback: false,
    };
    assert_eq!(payload.to_text(), "out");
    assert!(payload.as_str().contains("ou"));
}

#[test]
fn an_unreadable_image_is_skipped_and_the_texts_stay() {
    let items = vec![
        InputItem::Text { text: "a".to_string() },
        InputItem::LocalImage { path: String::new(), extension: None, bytes: None },
        InputItem::Text { text: "b".to_string() },
    ];
    assert_eq!(
        ResponseInputItem::from(items),
        ResponseInputItem::Message {
            role: "user".to_string(),
            content: vec![
                ContentItem::InputText { text: "a".to_string() },
                ContentItem::InputText { text: "b".to_string() },
            ],
        }
    );
    assert_eq!(
        ResponseInputItem::from(Vec::<InputItem>::new()),
        ResponseInputItem::Message { role: "user".to_string(), content: vec![] }
    );
    let image = vec![InputItem::LocalImage {
        path: "a.png".to_string(),
        extension: Some("png".to_string()),
        bytes: Some(b"hi".to_vec()),
    }];
    assert_eq!(
        ResponseInputItem::from_input(&image),
        ResponseInputItem::Message {
            role: "user".to_string(),
            content: vec![ContentItem::InputImage { image_url: "data:image/png;base64,aGk=".to_string() }],
        }
    );
}
