use llama_agent::code_iteration::{code_event, judgment_event, run_event, CodeEvent};
use llama_agent::console::{fold_line, log_begin_separator, log_end_separator, repeat_text};
use llama_agent::exec_python::{RaisedWith, SandboxOutcome};
use llama_agent::immutable_agent::{
    tool_result, CompletionRequest, ImmutableAgent, ToolError, ToolRequest,
};
use llama_agent::nous_structs::{classify_content, output_nous_response, ChatRole, Usage};

#[test]
fn a_single_line_is_one_input() {
    let mut answer = String::new();
    assert!(!fold_line(&mut answer, "what is the capital of France?\n"));
    assert_eq!(answer, "what is the capital of France?\n");
}

#[test]
fn lines_that_end_with_a_backslash_go_on() {
    let mut answer = String::new();
    assert!(fold_line(&mut answer, "Count the words: \\\n"));
    assert_eq!(answer, "Count the words: \n");
    assert!(fold_line(&mut answer, "\\\n"));
    assert_eq!(answer, "Count the words: \n\n");
    assert!(!fold_line(&mut answer, "You can use Git.\n"));
    assert_eq!(answer, "Count the words: \n\nYou can use Git.\n");
}

#[test]
fn a_line_without_a_line_break_is_dropped() {
    let mut answer = "so far\n".to_string();
    assert!(!fold_line(&mut answer, "cut off"));
    assert_eq!(answer, "so far\n");
    assert!(!fold_line(&mut answer, ""));
    assert!(!fold_line(&mut answer, "\\"));
    assert_eq!(answer, "so far\n");
}

#[test]
fn a_carriage_return_before_the_line_break_ends_the_input() {
    let mut answer = String::new();
    assert!(!fold_line(&mut answer, "more \\\r\n"));
    assert_eq!(answer, "more \\\r\n");
}

#[test]
fn marks_are_repeated() {
    assert_eq!(repeat_text("*", 3), "***");
    assert_eq!(repeat_text("ab", 2), "abab");
    assert_eq!(repeat_text("*", 0), "");
    assert_eq!(repeat_text("", 5), "");
}

#[test]
fn the_separator_that_begins_a_section() {
    let (text, width) = log_begin_separator("PROMPT", Some("*"), None).unwrap();
    assert_eq!(width, 100);
    let marks = "*".repeat(42);
    assert_eq!(text, format!("\n\n{marks} [LOG: PROMPT] {marks}\n"));
    let (text, width) = log_begin_separator("AB", None, Some(15)).unwrap();
    assert_eq!(width, 15);
    assert_eq!(text, "\n\n-- [LOG: AB] --\n");
    let (text, _) = log_begin_separator("", None, Some(9)).unwrap();
    assert_eq!(text, "\n\n [LOG: ] \n");
}

#[test]
fn a_title_wider_than_the_separator_has_none() {
    assert_eq!(log_begin_separator("PROMPT", None, Some(5)), None);
    assert_eq!(log_begin_separator("", None, Some(8)), None);
    assert!(log_begin_separator("é", None, Some(10)).is_none());
    assert!(log_begin_separator("é", None, Some(11)).is_some());
}

#[test]
fn the_separator_that_ends_a_section() {
    assert_eq!(log_end_separator(Some("*"), Some(4)), "\n\n****\n");
    assert_eq!(log_end_separator(None, None), format!("\n\n{}\n", "-".repeat(100)));
}

#[test]
fn a_request_appends_the_prompt_and_the_input() {
    let request = CompletionRequest { system_prompt: "be brief".to_string(), user_input: "hi".to_string() };
    assert_eq!(
        request.messages(),
        vec![(ChatRole::System, "be brief".to_string()), (ChatRole::User, "hi".to_string())]
    );
}

#[test]
fn the_result_of_a_step_is_what_came_back() {
    let fetch = ToolRequest::FetchPage { url: "u".to_string() };
    assert!(matches!(tool_result(&fetch, Ok("page".to_string())), Ok(t) if t == "page"));
    assert!(matches!(
        tool_result(&fetch, Err("404".to_string())),
        Err(ToolError::CollaboratorFailed(m)) if m == "404"
    ));
    let search = ToolRequest::Search { query: "q".to_string() };
    assert!(matches!(tool_result(&search, Ok("found".to_string())), Ok(t) if t == "found"));
    let intrinsic = ToolRequest::UseIntrinsic { task: "t".to_string() };
    assert!(matches!(tool_result(&intrinsic, Ok("answer".to_string())), Ok(t) if t == "answer"));
    assert!(matches!(
        tool_result(&intrinsic, Err("no task to handle".to_string())),
        Err(ToolError::CollaboratorFailed(m)) if m == "no task to handle"
    ));
}

#[test]
fn the_result_of_code_generation_is_the_placeholder() {
    let code = ToolRequest::GenerateCode { key_points: "k".to_string() };
    assert!(matches!(tool_result(&code, Ok("1\n".to_string())), Ok(t) if t == "code is being generated"));
    assert!(matches!(tool_result(&code, Err("failed".to_string())), Ok(t) if t == "code is being generated"));
}

#[test]
fn events_from_what_came_back() {
    let event = code_event(&classify_content("here:\n```python\nprint(1)\n```"));
    assert!(matches!(event, CodeEvent::Generated { code } if code == "print(1)"));
    let event = code_event(&classify_content("no code"));
    assert!(matches!(event, CodeEvent::Generated { code } if code.is_empty()));
    let event = run_event(SandboxOutcome::Captured("1\n".to_string()));
    assert!(matches!(event, CodeEvent::Ran { outcome: Ok(out) } if out == "1\n"));
    let event = run_event(SandboxOutcome::Raised(RaisedWith::Message("boom".to_string())));
    assert!(matches!(event, CodeEvent::Ran { outcome: Err(e) } if e == "Code execution error message: boom"));
    let agent = ImmutableAgent::new("a", "p");
    let usage = Usage { prompt_tokens: 0, completion_tokens: 0, total_tokens: 0 };
    let reply = output_nous_response("{\"continue_or_terminate\": \"TERMINATE\"}", ChatRole::Assistant, usage);
    assert!(matches!(judgment_event(&agent, &reply), CodeEvent::Judged { terminate: true }));
    let reply = output_nous_response("not sure", ChatRole::Assistant, usage);
    assert!(matches!(judgment_event(&agent, &reply), CodeEvent::Judged { terminate: false }));
}
