use llama_agent::utils::{
    assemble_next_move, field_pattern_text, key_points_from, parse_next_move_and_,
    parse_next_move_with, parse_planning_steps, parse_planning_steps_checked, steps_from,
    PlanningError,
};

fn strings(items: &[&str]) -> Vec<String> {
    items.iter().map(|s| s.to_string()).collect()
}

const JUDGE_REPLY: &str = "I have looked at the result.\n```json\n{\n    \"continue_or_terminate\": \"TERMINATE\",\n    \"key_points\": [\"primes up to 100\", \"25 primes\"]\n}\n```";

#[test]
fn judge_reply_is_read() {
    let (terminate, next, key_points) = parse_next_move_and_(JUDGE_REPLY, None);
    assert!(terminate);
    assert_eq!(next, None);
    assert_eq!(key_points, strings(&["primes up to 100", "25 primes"]));
}

#[test]
fn continue_does_not_terminate() {
    let (terminate, _, key_points) =
        parse_next_move_and_("{\"continue_or_terminate\": \"CONTINUE\", \"key_points\": [\"a\"]}", None);
    assert!(!terminate);
    assert_eq!(key_points, strings(&["a"]));
}

#[test]
fn terminate_is_compared_letter_for_letter() {
    for value in ["terminate", "Terminate", "TERMINATE ", " TERMINATE", "TERMINATED", ""] {
        let input = format!("{{\"continue_or_terminate\": \"{value}\"}}");
        assert!(!parse_next_move_and_(&input, None).0, "{value:?}");
    }
    assert!(parse_next_move_and_("{\"continue_or_terminate\":\"TERMINATE\"}", None).0);
    assert!(parse_next_move_and_("{\"continue_or_terminate\":\n\t \"TERMINATE\"}", None).0);
}

#[test]
fn missing_verdict_does_not_terminate() {
    assert_eq!(parse_next_move_and_("{\"key_points\": [\"a\"]}", None), (false, None, strings(&["a"])));
}

#[test]
fn text_without_an_object_gives_the_defaults() {
    assert_eq!(parse_next_move_and_("TERMINATE", Some("next_task_handler")), (false, None, vec![]));
    assert_eq!(parse_next_move_and_("", None), (false, None, vec![]));
    assert_eq!(
        parse_next_move_and_("\"continue_or_terminate\": \"TERMINATE\"", None),
        (false, None, vec![])
    );
}

#[test]
fn missing_key_points_give_an_empty_list() {
    let (_, _, key_points) = parse_next_move_and_("{\"continue_or_terminate\": \"TERMINATE\"}", None);
    assert_eq!(key_points, Vec::<String>::new());
}

#[test]
fn empty_key_points_give_an_empty_list() {
    let (_, _, key_points) = parse_next_move_and_("{\"key_points\": []}", None);
    assert_eq!(key_points, Vec::<String>::new());
}

#[test]
fn key_points_are_split_on_every_comma() {
    let (_, _, key_points) = parse_next_move_and_("{\"key_points\": [\"a, b\",  c ,\"\"]}", None);
    assert_eq!(key_points, strings(&["a", "b", "c", ""]));
}

#[test]
fn key_points_over_several_lines_are_not_found() {
    let (_, _, key_points) = parse_next_move_and_("{\"key_points\": [\"a\",\n\"b\"]}", None);
    assert_eq!(key_points, Vec::<String>::new());
}

#[test]
fn next_handler_is_read_when_asked_for() {
    let input = "{\"continue_or_terminate\": \"CONTINUE\", \"next_task_handler\": \"coder\", \"key_points\": [\"x\"]}";
    assert_eq!(
        parse_next_move_and_(input, Some("next_task_handler")),
        (false, Some("coder".to_string()), strings(&["x"]))
    );
    assert_eq!(parse_next_move_and_(input, None), (false, None, strings(&["x"])));
}

#[test]
fn absent_next_handler_is_none() {
    let input = "{\"continue_or_terminate\": \"TERMINATE\"}";
    assert_eq!(parse_next_move_and_(input, Some("next_task_handler")), (true, None, vec![]));
}

#[test]
fn empty_next_handler_is_the_empty_text() {
    let input = "{\"next_task_handler\": \"\"}";
    assert_eq!(parse_next_move_and_(input, Some("next_task_handler")).1, Some(String::new()));
}

#[test]
fn a_marker_that_is_no_pattern_finds_nothing() {
    let input = "{\"a(\": \"x\", \"continue_or_terminate\": \"TERMINATE\"}";
    assert_eq!(parse_next_move_and_(input, Some("a(")), (true, None, vec![]));
}

#[test]
fn only_the_first_single_level_object_is_searched() {
    let nested = "{\"detail\": {\"n\": 1}, \"continue_or_terminate\": \"TERMINATE\"}";
    assert_eq!(parse_next_move_and_(nested, None), (false, None, vec![]));
    let second = "{\"x\": \"y\"} {\"continue_or_terminate\": \"TERMINATE\"}";
    assert_eq!(parse_next_move_and_(second, None), (false, None, vec![]));
}

#[test]
fn another_termination_key_can_be_named() {
    let input = "{\"verdict\": \"TERMINATE\", \"continue_or_terminate\": \"CONTINUE\"}";
    assert!(parse_next_move_with(input, "verdict", None).0);
    assert!(!parse_next_move_and_(input, None).0);
}

#[test]
fn extraction_twice_gives_the_same() {
    for input in [JUDGE_REPLY, "", "{", "{\"key_points\": [\"a\", \"b\"]}"] {
        let first = parse_next_move_and_(input, Some("next_task_handler"));
        let second = parse_next_move_and_(input, Some("next_task_handler"));
        assert_eq!(first, second);
    }
}

#[test]
fn assembling_from_the_three_fields() {
    assert_eq!(
        assemble_next_move(Some("TERMINATE".to_string()), Some("n".to_string()), Some("\"a\", b".to_string())),
        (true, Some("n".to_string()), strings(&["a", "b"]))
    );
    assert_eq!(assemble_next_move(Some("terminate".to_string()), None, None), (false, None, vec![]));
    assert_eq!(assemble_next_move(None, None, Some(String::new())), (false, None, vec![]));
}

#[test]
fn key_points_lose_whitespace_then_quotes() {
    assert_eq!(key_points_from(Some(" \"\"a\"\" ,\" b \",\"".to_string())), strings(&["a", " b ", ""]));
    assert_eq!(key_points_from(Some(",".to_string())), strings(&["", ""]));
    assert_eq!(key_points_from(Some("\u{a0}x\u{2003}".to_string())), strings(&["x"]));
    assert_eq!(key_points_from(None), Vec::<String>::new());
}

#[test]
fn field_pattern_is_built_around_the_key() {
    assert_eq!(field_pattern_text("k"), "\"k\":\\s*\"([^\"]*)\"");
}

#[test]
fn planning_steps_are_read_in_order() {
    let reply = "{\n \"my_thought_process\": [\"...\"],\n \"steps_to_take\": [\"a\",\"b\",\"c\"]\n}";
    assert_eq!(parse_planning_steps(reply), strings(&["a", "b", "c"]));
    assert_eq!(parse_planning_steps_checked(reply), Ok(strings(&["a", "b", "c"])));
}

#[test]
fn planning_steps_may_span_lines() {
    let reply = "\"steps_to_take\": [\"Use 'search_with_bing' tool finding current year\", \n   \"Calculate Barack Obama's age from birth year (1961)\"]";
    assert_eq!(
        parse_planning_steps(reply),
        strings(&[
            "Use 'search_with_bing' tool finding current year",
            "Calculate Barack Obama's age from birth year (1961)"
        ])
    );
}

#[test]
fn missing_steps_give_an_empty_list() {
    assert_eq!(parse_planning_steps("I cannot plan this."), Vec::<String>::new());
    assert_eq!(parse_planning_steps_checked("I cannot plan this."), Err(PlanningError::MissingSteps));
    assert_eq!(parse_planning_steps_checked("\"steps_to_take\": \"a\""), Err(PlanningError::MissingSteps));
}

#[test]
fn steps_that_are_no_json_give_an_empty_list() {
    for reply in [
        "\"steps_to_take\": [a, b]",
        "\"steps_to_take\": [\"a\", 2]",
        "\"steps_to_take\": [\"a\",]",
        "\"steps_to_take\": [\"see [1]\", \"b\"]",
    ] {
        assert_eq!(parse_planning_steps(reply), Vec::<String>::new(), "{reply}");
        assert_eq!(parse_planning_steps_checked(reply), Err(PlanningError::InvalidSteps), "{reply}");
    }
}

#[test]
fn empty_steps_are_an_empty_list() {
    assert_eq!(parse_planning_steps_checked("\"steps_to_take\": []"), Ok(vec![]));
}

#[test]
fn steps_from_a_parse() {
    assert_eq!(steps_from(Some(strings(&["a"]))), Ok(strings(&["a"])));
    assert_eq!(steps_from(None), Err(PlanningError::InvalidSteps));
}

#[test]
fn planning_errors_in_words() {
    assert_eq!(PlanningError::MissingSteps.message(), "Failed to extract 'steps_to_take' from input.");
    assert_eq!(PlanningError::InvalidSteps.message(), "Failed to parse extracted 'steps_to_take' as JSON.");
}
