use codex_core::client_common::create_reasoning_param_for_request;
use codex_core::client_common::model_supports_reasoning_summaries;
use codex_core::client_common::is_sent;
use codex_core::client_common::sanitize_response_item;
use codex_core::client_common::serialize_sanitized_input;
use codex_core::client_common::OpenAiReasoningEffort;
use codex_core::client_common::OpenAiReasoningSummary;
use codex_core::client_common::Prompt;
use codex_core::client_common::Reasoning;
use codex_core::client_common::ResponsesApiRequest;
use codex_core::client_common::APPLY_PATCH_TOOL_INSTRUCTIONS;
use codex_core::client_common::BASE_INSTRUCTIONS;
use codex_core::config::Config;
use codex_core::config::ReasoningEffort;
use codex_core::config::ReasoningSummary;
use codex_core::json::Json;
use codex_core::models::ContentItem;
use codex_core::models::FunctionCallOutputPayload;
use codex_core::models::LocalShellAction;
use codex_core::models::LocalShellExecAction;
use codex_core::models::LocalShellStatus;
use codex_core::models::ResponseItem;
use codex_core::rollout::encode_line;

fn make_req(input: &Vec<ResponseItem>) -> Json {
    let req = ResponsesApiRequest {
        model: "test-model",
        instructions: "instr",
        input,
        tools: &[],
        tool_choice: "auto",
        parallel_tool_calls: false,
        reasoning: None,
        store: false,
        stream: false,
        including: vec![],
    };
    req.to_json()
}

fn first_input(v: &Json) -> &Json {
    &v.get("input").unwrap().as_array().unwrap()[0]
}

#[test]
fn function_call_output_output_is_replaced_by_content() {
    let items = vec![ResponseItem::FunctionCallOutput {
        call_id: "c1".into(),
        output: FunctionCallOutputPayload {
            content: "hello".into(),
            success: Some(true),
            is_user_feedback: true,
        },
    }];

    let v = make_req(&items);
    let input0 = first_input(&v);
    assert_eq!(input0.get("type").unwrap().as_str().unwrap(), "function_call_output");
    assert!(input0.get("output").unwrap().is_string());
    assert_eq!(input0.get("output").unwrap().as_str().unwrap(), "hello");
}

#[test]
fn non_function_call_items_are_unchanged() {
    let items = vec![ResponseItem::Message {
        role: "user".into(),
        content: vec![ContentItem::InputText { text: "Hi".into() }],
    }];

    let v = make_req(&items);
    let input0 = first_input(&v);
    assert_eq!(input0.get("type").unwrap().as_str().unwrap(), "message");
    assert_eq!(input0.get("role").unwrap().as_str().unwrap(), "user");
    assert_eq!(
        input0.get("content").unwrap().as_array().unwrap()[0].get("text").unwrap().as_str().unwrap(),
        "Hi"
    );
}

#[test]
fn the_log_keeps_what_the_request_drops() {
    let item = ResponseItem::FunctionCallOutput {
        call_id: "c1".into(),
        output: FunctionCallOutputPayload {
            content: "hello".into(),
            success: Some(true),
            is_user_feedback: true,
        },
    };
    assert_eq!(
        sanitize_response_item(&item).to_text().unwrap(),
        "{\"type\":\"function_call_output\",\"call_id\":\"c1\",\"output\":\"hello\"}"
    );
    let kept = Json::parse(&encode_line(&item).unwrap()).unwrap();
    let output = kept.get("output").unwrap();
    assert_eq!(output.get("content").unwrap().as_str(), Some("hello"));
    assert_eq!(output.get("success").unwrap().as_bool(), Some(true));
    assert_eq!(output.get("is_user_feedback").unwrap().as_bool(), Some(true));
    // The item itself is as it was.
    assert!(item.is_user_feedback());
}

fn config(model: &str, flag: bool) -> Config {
    Config {
        model: model.to_string(),
        model_supports_reasoning_summaries: flag,
        cwd: "/work".to_string(),
        codex_home: "/home/u/.codex".to_string(),
    }
}

#[test]
fn reasoning_goes_to_the_models_that_reason() {
    for effort in [ReasoningEffort::Low, ReasoningEffort::Medium, ReasoningEffort::High, ReasoningEffort::Off] {
        for summary in [ReasoningSummary::Auto, ReasoningSummary::Concise, ReasoningSummary::Detailed, ReasoningSummary::Off] {
            assert_eq!(create_reasoning_param_for_request(&config("gpt-4.1", false), effort, summary), None);
        }
    }
    assert_eq!(
        create_reasoning_param_for_request(&config("o3", false), ReasoningEffort::High, ReasoningSummary::Off),
        Some(Reasoning { effort: OpenAiReasoningEffort::High, summary: None })
    );
    assert_eq!(
        create_reasoning_param_for_request(&config("o3", false), ReasoningEffort::Low, ReasoningSummary::Concise),
        Some(Reasoning { effort: OpenAiReasoningEffort::Low, summary: Some(OpenAiReasoningSummary::Concise) })
    );
    assert_eq!(
        create_reasoning_param_for_request(&config("o3", false), ReasoningEffort::Off, ReasoningSummary::Auto),
        None
    );
    assert_eq!(
        create_reasoning_param_for_request(&config("gpt-4.1", true), ReasoningEffort::Medium, ReasoningSummary::Detailed),
        Some(Reasoning { effort: OpenAiReasoningEffort::Medium, summary: Some(OpenAiReasoningSummary::Detailed) })
    );
    assert!(model_supports_reasoning_summaries(&config("codex-mini", false)));
    assert!(model_supports_reasoning_summaries(&config("o", false)));
    assert!(!model_supports_reasoning_summaries(&config("", false)));
    assert!(!model_supports_reasoning_summaries(&config("code", false)));
    assert!(!model_supports_reasoning_summaries(&config("gpt-4o", false)));
    let wire: Option<OpenAiReasoningEffort> = ReasoningEffort::Medium.into();
    assert_eq!(wire, Some(OpenAiReasoningEffort::Medium));
    let none: Option<OpenAiReasoningSummary> = ReasoningSummary::Off.into();
    assert_eq!(none, None);
}

#[test]
fn instructions_are_put_together_in_order() {
    let mut prompt = Prompt::default();
    assert_eq!(prompt.get_full_instructions("o3"), BASE_INSTRUCTIONS);
    prompt.user_instructions = Some("be brief".to_string());
    assert_eq!(prompt.get_full_instructions("o3"), format!("{}\nbe brief", BASE_INSTRUCTIONS));
    assert_eq!(
        prompt.get_full_instructions("gpt-4.1-mini"),
        format!("{}\nbe brief\n{}", BASE_INSTRUCTIONS, APPLY_PATCH_TOOL_INSTRUCTIONS)
    );
    prompt.base_instructions_override = Some("base".to_string());
    prompt.user_instructions = None;
    assert_eq!(prompt.get_full_instructions("gpt-4.1"), format!("base\n{}", APPLY_PATCH_TOOL_INSTRUCTIONS));
    assert_eq!(prompt.get_full_instructions("gpt-4"), "base");
}

#[test]
fn a_request_has_its_ten_members() {
    let mut prompt = Prompt::default();
    prompt.store = true;
    prompt.input = vec![ResponseItem::Other];
    let tools = vec![Json::Object(vec![("name".to_string(), Json::Text("shell".to_string()))])];
    let request = prompt.to_request(
        "o3",
        "instr",
        &tools,
        Some(Reasoning { effort: OpenAiReasoningEffort::High, summary: Some(OpenAiReasoningSummary::Auto) }),
    );
    assert_eq!(
        request.to_json().to_text().unwrap(),
        "{\"model\":\"o3\",\"instructions\":\"instr\",\"input\":[],\"tools\":[{\"name\":\"shell\"}],\"tool_choice\":\"auto\",\"parallel_tool_calls\":false,\"reasoning\":{\"effort\":\"high\",\"summary\":\"auto\"},\"store\":true,\"stream\":true,\"include\":[]}"
    );
    let plain = prompt.to_request("gpt-4.1", "i", &[], None);
    assert_eq!(plain.to_json().get("reasoning"), Some(&Json::Null));
    let no_summary = prompt.to_request(
        "o3",
        "i",
        &[],
        Some(Reasoning { effort: OpenAiReasoningEffort::Low, summary: None }),
    );
    assert_eq!(
        no_summary.to_json().get("reasoning").unwrap().to_text().unwrap(),
        "{\"effort\":\"low\"}"
    );
}

#[test]
fn a_payload_is_built_from_the_prompt_and_the_configuration() {
    let mut prompt = Prompt::default();
    prompt.user_instructions = Some("be brief".to_string());
    prompt.input = vec![ResponseItem::Message {
        role: "user".into(),
        content: vec![ContentItem::InputText { text: "Hi".into() }],
    }];
    let plain = prompt.build_payload(&config("gpt-4.1", false), ReasoningEffort::High, ReasoningSummary::Auto, &[]);
    assert_eq!(plain.get("reasoning"), Some(&Json::Null));
    assert_eq!(plain.get("model").unwrap().as_str(), Some("gpt-4.1"));
    assert_eq!(
        plain.get("instructions").unwrap().as_str().unwrap(),
        format!("{}\nbe brief\n{}", BASE_INSTRUCTIONS, APPLY_PATCH_TOOL_INSTRUCTIONS)
    );
    assert_eq!(plain.get("stream").unwrap().as_bool(), Some(true));
    assert_eq!(plain.get("store").unwrap().as_bool(), Some(false));
    assert_eq!(plain.get("tool_choice").unwrap().as_str(), Some("auto"));
    assert_eq!(plain.get("parallel_tool_calls").unwrap().as_bool(), Some(false));
    assert_eq!(plain.get("include"), Some(&Json::Array(vec![])));
    let reasoned = prompt.build_payload(&config("o3", false), ReasoningEffort::High, ReasoningSummary::Auto, &[]);
    assert_eq!(
        reasoned.get("reasoning").unwrap().to_text().unwrap(),
        "{\"effort\":\"high\",\"summary\":\"auto\"}"
    );
    assert_eq!(
        reasoned.get("instructions").unwrap().as_str().unwrap(),
        format!("{}\nbe brief", BASE_INSTRUCTIONS)
    );
    let off = prompt.build_payload(&config("o3", false), ReasoningEffort::Off, ReasoningSummary::Auto, &[]);
    assert_eq!(off.get("reasoning"), Some(&Json::Null));
}

#[test]
fn an_item_without_an_encoding_goes_out_as_the_name_of_its_kind() {
    let broken = ResponseItem::LocalShellCall {
        id: None,
        call_id: None,
        status: LocalShellStatus::Completed,
        action: LocalShellAction::Exec(LocalShellExecAction {
            command: vec![],
            timeout_ms: None,
            working_directory: None,
            env: Some(vec![("A".to_string(), "1".to_string()), ("A".to_string(), "2".to_string())]),
            user: None,
        }),
    };
    assert_eq!(sanitize_response_item(&broken), Json::Text("local_shell_call".to_string()));
    let items = vec![broken, ResponseItem::Other];
    let v = make_req(&items);
    assert_eq!(
        v.get("input").unwrap().to_text().unwrap(),
        "[\"local_shell_call\"]"
    );
    let request = ResponsesApiRequest {
        model: "m",
        instructions: "i",
        input: &items,
        tools: &[Json::Decimal("one".to_string())],
        tool_choice: "auto",
        parallel_tool_calls: false,
        reasoning: None,
        store: false,
        stream: true,
        including: vec!["x".to_string()],
    };
    assert_eq!(request.to_text(), None);
}

#[test]
fn a_prompt_names_each_tool_once() {
    let mut prompt = Prompt::default();
    assert!(prompt.is_wf());
    prompt.extra_tools = vec![("a/x".to_string(), Json::Null), ("b/x".to_string(), Json::Null)];
    assert!(prompt.is_wf());
    prompt.extra_tools.push(("a/x".to_string(), Json::Bool(true)));
    assert!(!prompt.is_wf());
}

#[test]
fn items_of_unknown_kind_are_never_sent() {
    let output = ResponseItem::FunctionCallOutput {
        call_id: "c1".into(),
        output: FunctionCallOutputPayload { content: "hello".into(), success: None, is_user_feedback: false },
    };
    let message = ResponseItem::Message {
        role: "user".into(),
        content: vec![ContentItem::InputText { text: "Hi".into() }],
    };
    let reasoning = ResponseItem::Reasoning { id: "r".into(), summary: vec![] };
    let items = vec![ResponseItem::Other, message.clone(), ResponseItem::Other, output.clone(), reasoning.clone(), ResponseItem::Other];
    let before = items.clone();
    let sent = serialize_sanitized_input(&items);
    assert_eq!(items, before);
    assert_eq!(
        sent,
        Json::Array(vec![
            sanitize_response_item(&message),
            sanitize_response_item(&output),
            sanitize_response_item(&reasoning),
        ])
    );
    assert_eq!(
        sent.to_text().unwrap(),
        "[{\"type\":\"message\",\"role\":\"user\",\"content\":[{\"type\":\"input_text\",\"text\":\"Hi\"}]},{\"type\":\"function_call_output\",\"call_id\":\"c1\",\"output\":\"hello\"},{\"type\":\"reasoning\",\"id\":\"r\",\"summary\":[]}]"
    );
    assert_eq!(serialize_sanitized_input(&vec![ResponseItem::Other]), Json::Array(vec![]));
    assert_eq!(serialize_sanitized_input(&vec![]), Json::Array(vec![]));
    assert!(!is_sent(&ResponseItem::Other));
    assert!(is_sent(&reasoning));
    // The shape of an item of unknown kind is still the object that names it.
    assert_eq!(sanitize_response_item(&ResponseItem::Other).to_text().unwrap(), "{\"type\":\"other\"}");
    let payload = make_req(&items);
    assert_eq!(payload.get("input").unwrap().as_array().unwrap().len(), 3);
}

#[test]
fn a_tool_that_holds_a_fraction_is_sent_with_it() {
    let tools = vec![Json::parse("{\"name\":\"t\",\"parameters\":{\"minimum\":0.5,\"maximum\":-3}}").unwrap()];
    let items = vec![];
    let request = ResponsesApiRequest {
        model: "m",
        instructions: "i",
        input: &items,
        tools: &tools,
        tool_choice: "auto",
        parallel_tool_calls: false,
        reasoning: None,
        store: false,
        stream: true,
        including: vec![],
    };
    assert_eq!(
        request.to_text().unwrap(),
        "{\"model\":\"m\",\"instructions\":\"i\",\"input\":[],\"tools\":[{\"name\":\"t\",\"parameters\":{\"minimum\":0.5,\"maximum\":-3}}],\"tool_choice\":\"auto\",\"parallel_tool_calls\":false,\"reasoning\":null,\"store\":false,\"stream\":true,\"include\":[]}"
    );
}
