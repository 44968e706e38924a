use llama_agent::arguments::Arguments;
use llama_agent::nous_structs::{
    classify_content, extract_json_from_xml_like, output_nous_response, parse_tool_call, ChatRole,
    NousContent, NousResponseMessage, NousToolCall, Usage,
};

fn usage() -> Usage {
    Usage { prompt_tokens: 7, completion_tokens: 5, total_tokens: 12 }
}

fn arguments(pairs: &[(&str, &str)]) -> Arguments {
    let mut out = Arguments::new();
    for (k, v) in pairs {
        out.insert(k.to_string(), v.to_string());
    }
    out
}

#[test]
fn framed_payload_is_extracted() {
    let got = extract_json_from_xml_like("<tool_call>{\"name\":\"x\"}</tool_call>");
    assert_eq!(got, Some("{\"name\":\"x\"}".to_string()));
}

#[test]
fn payload_is_trimmed_on_both_sides() {
    let got = extract_json_from_xml_like("  \n<tool_call>\n {\"name\":\"x\"} \n</tool_call>\t\n");
    assert_eq!(got, Some("{\"name\":\"x\"}".to_string()));
}

#[test]
fn payload_survives_wide_whitespace_around_the_markers() {
    let data = "\u{3000}\u{3000}\u{3000}\u{3000}<tool_call>{}</tool_call>\u{3000}\u{3000}\u{3000}\u{3000} ";
    assert_eq!(extract_json_from_xml_like(data), Some("{}".to_string()));
}

#[test]
fn empty_payload_between_adjacent_markers() {
    assert_eq!(extract_json_from_xml_like("<tool_call></tool_call>"), Some(String::new()));
}

#[test]
fn text_before_the_opening_marker_is_no_frame() {
    assert_eq!(extract_json_from_xml_like("Sure: <tool_call>{}</tool_call>"), None);
}

#[test]
fn text_after_the_closing_marker_is_no_frame() {
    assert_eq!(extract_json_from_xml_like("<tool_call>{}</tool_call> done"), None);
}

#[test]
fn a_lone_marker_is_no_frame() {
    assert_eq!(extract_json_from_xml_like("<tool_call>"), None);
    assert_eq!(extract_json_from_xml_like("</tool_call>"), None);
    assert_eq!(extract_json_from_xml_like(""), None);
}

#[test]
fn mismatched_closing_marker_is_no_frame() {
    assert_eq!(extract_json_from_xml_like("<tool_call>{}</tools>"), None);
}

#[test]
fn well_formed_call_keeps_name_and_arguments() {
    let data = "<tool_call>\n{\"arguments\":{\"url\":\"https://example.com\"}, \n\"name\":\"get_webpage_text\"}\n</tool_call>";
    let expected = NousToolCall {
        name: "get_webpage_text".to_string(),
        arguments: Some(arguments(&[("url", "https://example.com")])),
    };
    assert_eq!(classify_content(data), NousContent::NousToolCall(expected));
}

#[test]
fn call_with_several_arguments_keeps_each() {
    let data = "<tool_call>{\"name\":\"t\",\"arguments\":{\"b\":\"2\",\"a\":\"1\",\"c\":\"\"}}</tool_call>";
    match classify_content(data) {
        NousContent::NousToolCall(call) => {
            assert_eq!(call.name, "t");
            let args = call.arguments.expect("arguments");
            assert_eq!(args.len(), 3);
            assert_eq!(args.get("a"), Some(&"1".to_string()));
            assert_eq!(args.get("b"), Some(&"2".to_string()));
            assert_eq!(args.get("c"), Some(&String::new()));
            assert_eq!(args.get("d"), None);
        }
        NousContent::Text(t) => panic!("expected a tool call, got text {t:?}"),
    }
}

#[test]
fn unknown_tool_is_still_a_tool_call() {
    let got = classify_content("<tool_call>{\"name\":\"unknown_tool\",\"arguments\":{}}</tool_call>");
    let expected = NousToolCall { name: "unknown_tool".to_string(), arguments: Some(Arguments::new()) };
    assert_eq!(got, NousContent::NousToolCall(expected));
}

#[test]
fn call_without_arguments_has_none() {
    let got = classify_content("<tool_call>{\"name\":\"ping\"}</tool_call>");
    assert_eq!(got, NousContent::NousToolCall(NousToolCall { name: "ping".to_string(), arguments: None }));
}

#[test]
fn null_arguments_are_none() {
    let got = classify_content("<tool_call>{\"name\":\"ping\",\"arguments\":null}</tool_call>");
    assert_eq!(got, NousContent::NousToolCall(NousToolCall { name: "ping".to_string(), arguments: None }));
}

#[test]
fn unknown_members_are_ignored() {
    let got = classify_content("<tool_call>{\"id\":3,\"name\":\"ping\",\"extra\":[1,2]}</tool_call>");
    assert_eq!(got, NousContent::NousToolCall(NousToolCall { name: "ping".to_string(), arguments: None }));
}

#[test]
fn of_a_member_given_twice_the_last_counts() {
    let got = classify_content("<tool_call>{\"name\":\"a\",\"arguments\":{\"k\":\"1\",\"k\":\"2\"},\"name\":\"b\"}</tool_call>");
    let expected = NousToolCall { name: "b".to_string(), arguments: Some(arguments(&[("k", "2")])) };
    assert_eq!(got, NousContent::NousToolCall(expected));
}

#[test]
fn escapes_in_strings_are_resolved() {
    let got = classify_content("<tool_call>{\"name\":\"say\",\"arguments\":{\"text\":\"a\\n\\\"b\\\" \\u00e9\"}}</tool_call>");
    let expected = NousToolCall {
        name: "say".to_string(),
        arguments: Some(arguments(&[("text", "a\n\"b\" \u{e9}")])),
    };
    assert_eq!(got, NousContent::NousToolCall(expected));
}

#[test]
fn plain_text_stays_as_it_came() {
    let data = "  The answer is 42.\n";
    assert_eq!(classify_content(data), NousContent::Text(data.to_string()));
}

#[test]
fn plain_text_without_surrounding_whitespace_equals_its_trimmed_form() {
    let data = "The answer is 42.";
    assert_eq!(classify_content(data), NousContent::Text(data.trim().to_string()));
}

#[test]
fn invalid_json_falls_back_to_text() {
    let data = "<tool_call>{\"name\": \"x\", }</tool_call>";
    assert_eq!(classify_content(data), NousContent::Text(data.to_string()));
}

#[test]
fn empty_payload_falls_back_to_text() {
    let data = "<tool_call></tool_call>";
    assert_eq!(classify_content(data), NousContent::Text(data.to_string()));
}

#[test]
fn missing_name_falls_back_to_text() {
    let data = "<tool_call>{\"arguments\":{\"url\":\"u\"}}</tool_call>";
    assert_eq!(classify_content(data), NousContent::Text(data.to_string()));
}

#[test]
fn name_of_wrong_type_falls_back_to_text() {
    let data = "<tool_call>{\"name\":7,\"arguments\":{}}</tool_call>";
    assert_eq!(classify_content(data), NousContent::Text(data.to_string()));
}

#[test]
fn argument_of_wrong_type_falls_back_to_text() {
    let data = "<tool_call>{\"name\":\"x\",\"arguments\":{\"n\":7}}</tool_call>";
    assert_eq!(classify_content(data), NousContent::Text(data.to_string()));
}

#[test]
fn arguments_that_are_no_object_fall_back_to_text() {
    for arguments in ["[]", "\"url\"", "true", "3"] {
        let data = format!("<tool_call>{{\"name\":\"x\",\"arguments\":{arguments}}}</tool_call>");
        assert_eq!(classify_content(&data), NousContent::Text(data.clone()));
    }
}

#[test]
fn a_json_list_is_no_tool_call() {
    let data = "<tool_call>[\"x\", {\"a\":\"b\"}]</tool_call>";
    assert_eq!(classify_content(data), NousContent::Text(data.to_string()));
}

#[test]
fn two_calls_in_one_reply_are_text() {
    let data = "<tool_call>{\"name\":\"a\"}</tool_call><tool_call>{\"name\":\"b\"}</tool_call>";
    assert_eq!(classify_content(data), NousContent::Text(data.to_string()));
}

#[test]
fn parse_tool_call_reads_bare_json() {
    let got = parse_tool_call("{\"name\":\"search_with_bing\",\"arguments\":{\"query\":\"q\"}}");
    let expected = NousToolCall {
        name: "search_with_bing".to_string(),
        arguments: Some(arguments(&[("query", "q")])),
    };
    assert_eq!(got, Some(expected));
    assert_eq!(parse_tool_call("not json"), None);
    assert_eq!(parse_tool_call("\"name\""), None);
}

#[test]
fn response_keeps_role_and_usage() {
    let reply = output_nous_response("hello", ChatRole::Assistant, usage());
    assert_eq!(reply.content, NousContent::Text("hello".to_string()));
    assert_eq!(reply.role, ChatRole::Assistant);
    assert_eq!(reply.usage, usage());
}

#[test]
fn text_content_renders_as_itself() {
    let reply = NousResponseMessage {
        content: NousContent::Text("as is \"quoted\"".to_string()),
        role: ChatRole::Assistant,
        usage: usage(),
    };
    assert_eq!(reply.content_to_string(), "as is \"quoted\"");
}

#[test]
fn tool_call_renders_with_quoted_arguments() {
    let reply = output_nous_response(
        "<tool_call>{\"name\":\"search_with_bing\",\"arguments\":{\"query\":\"a \\\"b\\\"\\n\"}}</tool_call>",
        ChatRole::Assistant,
        usage(),
    );
    assert_eq!(
        reply.content_to_string(),
        "tool_call: search_with_bing, arguments: \"query\": \"a \\\"b\\\"\\n\""
    );
}

#[test]
fn tool_call_renders_arguments_in_order_with_commas() {
    let call = NousToolCall { name: "t".to_string(), arguments: Some(arguments(&[("b", "2"), ("a", "1")])) };
    let content = NousContent::NousToolCall(call);
    assert_eq!(content.render(), "tool_call: t, arguments: \"b\": \"2\", \"a\": \"1\"");
}

#[test]
fn tool_call_without_arguments_renders_none() {
    let content = NousContent::NousToolCall(NousToolCall { name: "t".to_string(), arguments: None });
    assert_eq!(content.render(), "tool_call: t, arguments: ");
}

#[test]
fn clones_hold_what_was_cloned() {
    let call = NousToolCall { name: "t".to_string(), arguments: Some(arguments(&[("a", "1")])) };
    assert_eq!(call.clone(), call);
    let content = NousContent::NousToolCall(call);
    assert_eq!(content.clone(), content);
    let reply = NousResponseMessage { content, role: ChatRole::Tool, usage: usage() };
    let copy = reply.clone();
    assert_eq!(copy.content, reply.content);
    assert_eq!(copy.role, reply.role);
    assert_eq!(copy.usage, reply.usage);
}

#[test]
fn contents_of_different_kinds_differ() {
    let text = NousContent::Text("t".to_string());
    let call = NousContent::NousToolCall(NousToolCall { name: "t".to_string(), arguments: None });
    assert_ne!(text, call);
    assert_ne!(
        NousToolCall { name: "t".to_string(), arguments: None },
        NousToolCall { name: "t".to_string(), arguments: Some(Arguments::new()) }
    );
}

#[test]
fn arguments_compare_as_mappings() {
    let one = arguments(&[("a", "1"), ("b", "2")]);
    let other = arguments(&[("b", "2"), ("a", "1")]);
    assert_eq!(one, other);
    assert_ne!(one, arguments(&[("a", "1")]));
    assert_ne!(one, arguments(&[("a", "1"), ("b", "3")]));
    assert_ne!(one, arguments(&[("a", "1"), ("c", "2")]));
}

#[test]
fn inserting_a_name_again_replaces_its_value_in_place() {
    let mut args = arguments(&[("a", "1"), ("b", "2")]);
    args.insert("a".to_string(), "3".to_string());
    assert_eq!(args.len(), 2);
    assert_eq!(args.name_at(0), "a");
    assert_eq!(args.value_at(0), "3");
    assert_eq!(args.name_at(1), "b");
    assert_eq!(args.get("a"), Some(&"3".to_string()));
    assert_eq!(Arguments::default().len(), 0);
}
