use turn_failure_handler::failure::{
    CodexErrorInfo, TurnFailure, TurnFailureContinuation, MAX_ERROR_MESSAGE_BYTES,
};
use turn_failure_handler::history::{LocalShellStatus, ResponseItem};
use turn_failure_handler::summary::{
    summarize_tool_activity, MAX_TOOL_ENTRIES, MAX_TOOL_SUMMARY_BYTES,
};
use turn_failure_handler::text::truncate_utf8;

fn turn() -> Option<String> {
    Some("turn-1".to_string())
}

fn function_call(call_id: &str, name: &str) -> ResponseItem {
    ResponseItem::FunctionCall {
        name: name.to_string(),
        namespace: None,
        call_id: call_id.to_string(),
        turn_id: turn(),
    }
}

fn function_call_for_other_turn() -> ResponseItem {
    ResponseItem::FunctionCall {
        name: "other_tool".to_string(),
        namespace: None,
        call_id: "other-call".to_string(),
        turn_id: Some("turn-2".to_string()),
    }
}

fn function_output(call_id: &str, turn_id: Option<String>) -> ResponseItem {
    ResponseItem::FunctionCallOutput {
        call_id: Some(call_id.to_string()),
        turn_id,
    }
}

fn continuation(attempt: u32, max_continuations: u32) -> TurnFailureContinuation {
    TurnFailureContinuation {
        instructions: "Follow my custom instructions.".to_string(),
        attempt,
        max_continuations,
    }
}

#[test]
fn tool_summary_distinguishes_recorded_outputs_from_unknown_execution() {
    let history = [
        function_call("completed-call", "exec_command"),
        function_output("completed-call", turn()),
        function_call("outstanding-call", "send_email"),
        ResponseItem::ToolSearchCall {
            call_id: Some("search-call".to_string()),
            status: Some("completed".to_string()),
            turn_id: turn(),
        },
        function_call_for_other_turn(),
    ];
    let failure = TurnFailure::from_history(
        CodexErrorInfo::CyberPolicy,
        "policy stopped the request",
        continuation(1, 2),
        "turn-1",
        history.iter(),
    );

    assert_eq!(
        failure.body(),
        "\nThe preceding model request failed. Continue the same logical turn using the existing thread history, including every prior message and tool item.\nFailure kind: CyberPolicy\nFailure message: policy stopped the request\nHandler attempt: 1 of 2\nCurrent-turn tool activity derived from that history:\n- exec_command [completed-call]: output recorded\n- send_email [outstanding-call]: no output recorded - execution may be incomplete or its result may be unknown\n- tool_search [search-call]: no output recorded - execution may be incomplete or its result may be unknown (reported status: completed)\nUser-configured failure instructions:\nFollow my custom instructions.\n"
    );
}

#[test]
fn tool_summary_covers_supported_response_tool_items() {
    let history = [
        ResponseItem::CustomToolCall {
            name: "apply_patch".to_string(),
            namespace: Some("workspace".to_string()),
            call_id: "custom-call".to_string(),
            turn_id: turn(),
        },
        ResponseItem::CustomToolCallOutput {
            call_id: "custom-call".to_string(),
            turn_id: turn(),
        },
        ResponseItem::ToolSearchCall {
            call_id: Some("search-call".to_string()),
            status: Some("completed".to_string()),
            turn_id: turn(),
        },
        ResponseItem::ToolSearchOutput {
            call_id: Some("search-call".to_string()),
            turn_id: turn(),
        },
        ResponseItem::LocalShellCall {
            call_id: Some("shell-call".to_string()),
            status: LocalShellStatus::Completed,
            turn_id: turn(),
        },
        ResponseItem::WebSearchCall {
            status: Some("completed".to_string()),
            turn_id: turn(),
        },
        ResponseItem::ImageGenerationCall {
            status: "completed".to_string(),
            turn_id: turn(),
        },
    ];

    assert_eq!(
        summarize_tool_activity("turn-1", history.iter()),
        "- workspace.apply_patch [custom-call]: output recorded\n- tool_search [search-call]: output recorded\n- local_shell [shell-call]: no output recorded - execution may be incomplete or its result may be unknown (reported status: Completed)\n- web_search: completed\n- image_generation: completed"
    );
}

#[test]
fn tool_summary_and_utf8_truncation_obey_hard_limits() {
    let short_history = (0..40)
        .map(|index| function_call(&format!("call-{index}"), "tool"))
        .collect::<Vec<_>>();
    let short_summary = summarize_tool_activity("turn-1", short_history.iter());
    assert!(short_summary.lines().count() <= MAX_TOOL_ENTRIES);
    assert!(short_summary.len() <= MAX_TOOL_SUMMARY_BYTES);
    assert!(short_summary.ends_with("- 9 additional tool calls omitted by the summary limit."));

    let long_history = (0..40)
        .map(|index| function_call(&format!("call-{index}"), &"x".repeat(100)))
        .collect::<Vec<_>>();
    let summary = summarize_tool_activity("turn-1", long_history.iter());

    assert!(summary.len() <= MAX_TOOL_SUMMARY_BYTES);
    assert!(summary.lines().count() <= MAX_TOOL_ENTRIES);
    let truncated = truncate_utf8(&"é".repeat(20), 17);
    assert!(truncated.len() <= 17);
    assert!(truncated.is_char_boundary(truncated.len()));
    assert!(truncated.ends_with("...[truncated]"));
    assert_eq!(truncate_utf8("long value", 5), "...[t");
}

#[test]
fn a_turn_without_tool_calls_says_so() {
    let history = [
        function_call_for_other_turn(),
        function_output("completed-call", turn()),
        ResponseItem::Other { turn_id: turn() },
        ResponseItem::WebSearchCall {
            status: None,
            turn_id: None,
        },
    ];
    assert_eq!(
        summarize_tool_activity("turn-1", history.iter()),
        "- No tool calls were recorded in this turn before the failure."
    );
    let nothing: [ResponseItem; 0] = [];
    assert_eq!(
        summarize_tool_activity("turn-1", nothing.iter()),
        "- No tool calls were recorded in this turn before the failure."
    );
}

#[test]
fn only_what_the_iterator_still_holds_is_summarized() {
    let history = [function_call("first", "a"), function_call("second", "b")];
    let mut items = history.iter();
    items.next();
    assert_eq!(
        summarize_tool_activity("turn-1", items),
        "- b [second]: no output recorded - execution may be incomplete or its result may be unknown"
    );
}

#[test]
fn outputs_of_other_turns_do_not_count() {
    let history = [
        function_call("call", "tool"),
        function_output("call", Some("turn-2".to_string())),
        function_output("call", None),
        ResponseItem::ToolSearchOutput {
            call_id: Some("call".to_string()),
            turn_id: turn(),
        },
        ResponseItem::FunctionCallOutput {
            call_id: None,
            turn_id: turn(),
        },
    ];
    assert_eq!(
        summarize_tool_activity("turn-1", history.iter()),
        "- tool [call]: no output recorded - execution may be incomplete or its result may be unknown"
    );
    assert_eq!(
        summarize_tool_activity("turn-2", history.iter()),
        "- No tool calls were recorded in this turn before the failure."
    );
}

#[test]
fn an_output_counts_wherever_it_stands() {
    let in_order = [
        function_call("first", "read"),
        function_output("first", turn()),
        function_call("second", "write"),
    ];
    let output_first_and_last = [
        function_output("first", turn()),
        function_call("first", "read"),
        function_call("second", "write"),
        function_output("first", turn()),
    ];
    let summary = "- read [first]: output recorded\n- write [second]: no output recorded - execution may be incomplete or its result may be unknown";
    assert_eq!(summarize_tool_activity("turn-1", in_order.iter()), summary);
    assert_eq!(summarize_tool_activity("turn-1", output_first_and_last.iter()), summary);
}

#[test]
fn missing_ids_and_statuses_are_named_as_unknown() {
    let history = [
        ResponseItem::ToolSearchCall {
            call_id: None,
            status: None,
            turn_id: turn(),
        },
        ResponseItem::LocalShellCall {
            call_id: None,
            status: LocalShellStatus::Named("InProgress".to_string()),
            turn_id: turn(),
        },
        ResponseItem::WebSearchCall {
            status: None,
            turn_id: turn(),
        },
    ];
    assert_eq!(
        summarize_tool_activity("turn-1", history.iter()),
        "- tool_search [unknown call id]: no output recorded - execution may be incomplete or its result may be unknown (reported status: unknown)\n- local_shell [unknown call id]: no output recorded - execution may be incomplete or its result may be unknown (reported status: InProgress)\n- web_search: status unknown"
    );
}

#[test]
fn an_output_may_be_recorded_for_the_unknown_call_id() {
    let history = [
        ResponseItem::LocalShellCall {
            call_id: None,
            status: LocalShellStatus::Completed,
            turn_id: turn(),
        },
        function_output("unknown call id", turn()),
    ];
    assert_eq!(
        summarize_tool_activity("turn-1", history.iter()),
        "- local_shell [unknown call id]: output recorded (reported status: Completed)"
    );
}

#[test]
fn as_many_calls_as_fit_are_all_shown() {
    let history = (0..32)
        .map(|index| function_call(&format!("c{index}"), "t"))
        .collect::<Vec<_>>();
    let summary = summarize_tool_activity("turn-1", history[..20].iter());
    assert_eq!(summary.lines().count(), 20);
    assert!(!summary.contains("omitted"));
    assert!(!summarize_tool_activity("turn-1", history.iter()).contains("omitted"));
}

#[test]
fn a_long_listing_is_cut_before_the_number_of_omitted_calls() {
    let history = (0..33)
        .map(|index| function_call(&format!("call-{index}"), &"x".repeat(100)))
        .collect::<Vec<_>>();
    let summary = summarize_tool_activity("turn-1", history.iter());
    assert_eq!(summary.len(), MAX_TOOL_SUMMARY_BYTES);
    assert!(summary.ends_with(
        "...[truncated]\n- 2 additional tool calls omitted by the summary limit."
    ));
    let shorter = summarize_tool_activity("turn-1", history[..32].iter());
    assert_eq!(shorter.len(), MAX_TOOL_SUMMARY_BYTES);
    assert!(shorter.ends_with("...[truncated]"));
}

#[test]
fn line_breaks_in_names_add_lines() {
    let history = (0..40)
        .map(|_| function_call("c", "a\nb"))
        .collect::<Vec<_>>();
    let summary = summarize_tool_activity("turn-1", history.iter());
    assert!(summary.lines().count() > MAX_TOOL_ENTRIES);
    assert!(summary.len() <= MAX_TOOL_SUMMARY_BYTES);
}

#[test]
fn a_failure_passes_on_a_bounded_message() {
    let history: [ResponseItem; 0] = [];
    let failure = TurnFailure::from_history(
        CodexErrorInfo::Described("HttpConnectionFailed { http_status_code: Some(502) }".to_string()),
        &"m".repeat(MAX_ERROR_MESSAGE_BYTES + 1),
        continuation(10, 4294967295),
        "turn-1",
        history.iter(),
    );
    let expected = format!(
        "\nFailure kind: HttpConnectionFailed {{ http_status_code: Some(502) }}\nFailure message: {}...[truncated]\nHandler attempt: 10 of 4294967295\n",
        "m".repeat(MAX_ERROR_MESSAGE_BYTES - 14)
    );
    assert!(failure.body().contains(&expected));
    assert!(failure.body().ends_with("\nFollow my custom instructions.\n"));
}

#[test]
fn a_failure_keeps_the_class_of_its_error() {
    let history: [ResponseItem; 0] = [];
    let failure = |error: CodexErrorInfo| {
        TurnFailure::from_history(error, "m", continuation(1, 2), "turn-1", history.iter())
    };
    let policy = failure(CodexErrorInfo::CyberPolicy);
    let described = failure(CodexErrorInfo::Described("CyberPolicy".to_string()));
    assert_eq!(policy, failure(CodexErrorInfo::CyberPolicy));
    assert_ne!(policy, described);
    assert_eq!(policy.body(), described.body());
}

#[test]
fn a_failure_is_marked_as_what_it_is() {
    let history: [ResponseItem; 0] = [];
    let failure = TurnFailure::from_history(
        CodexErrorInfo::CyberPolicy,
        "",
        continuation(1, 1),
        "turn-1",
        history.iter(),
    );
    assert_eq!(failure.content_kind().0, "generic.turn_failure_handler");
    assert_eq!(failure.role(), "user");
    assert_eq!(
        failure.markers(),
        ("<turn_failure_handler>", "</turn_failure_handler>")
    );
    assert_eq!(TurnFailure::type_markers(), failure.markers());
}
