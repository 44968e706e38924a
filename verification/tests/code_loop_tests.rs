use llama_agent::code_iteration::{
    CodeAction, CodeEvent, CodeIterationState, CodePhase, Verdict, MAX_ITER,
};
use llama_agent::exec_python::{
    blocks_from_matches, capture_script, code_from_matches, extract_code, extract_code_blocks,
    run_python_capture, run_python_wrapper, RaisedWith, SandboxOutcome,
};
use llama_agent::immutable_agent::{
    ImmutableAgent, StepAction, StepOutcome, ToolRequest,
};
use llama_agent::nous_structs::{classify_content, output_nous_response, ChatRole, Usage};
use llama_agent::prompts::{
    grounding_check_template, iterate_code_retry_template, iterate_coding_fail_template,
    iterate_coding_history_template, iterate_coding_incorrect_template,
    iterate_coding_start_template, iterate_coding_success_template, CODE_PLACEHOLDER,
    CODE_PYTHON_PROMPT, IS_TERMINATION_PROMPT, ITERATE_CODING_INVALID_TEMPLATE,
};

fn generated(code: &str) -> CodeEvent {
    CodeEvent::Generated { code: code.to_string() }
}

fn ran(outcome: Result<&str, &str>) -> CodeEvent {
    CodeEvent::Ran { outcome: outcome.map(|s| s.to_string()).map_err(|s| s.to_string()) }
}

fn is_generate(action: &CodeAction, prompt: &str) -> bool {
    matches!(action, CodeAction::Generate(r) if r.system_prompt == CODE_PYTHON_PROMPT && r.user_input == prompt)
}

#[test]
fn the_bound_is_eight() {
    assert_eq!(MAX_ITER, 8);
}

#[test]
fn the_loop_starts_with_the_task() {
    let (state, action) = CodeIterationState::start("sum 1 to 10");
    assert!(is_generate(&action, "Here is the task for you: sum 1 to 10"));
    assert_eq!(state.iteration(), 1);
    assert_eq!(state.phase(), CodePhase::AwaitingCode);
    assert_eq!(state.verdict(), Verdict::Failed);
    assert_eq!(state.code(), "");
    assert_eq!(state.execution_result(), "");
    assert_eq!(state.prompt(), "Here is the task for you: sum 1 to 10");
}

#[test]
fn code_that_arrives_is_to_be_run() {
    let (state, _) = CodeIterationState::start("t");
    let (state, action) = state.step(generated("print(1)"));
    assert!(matches!(action, CodeAction::Execute { code } if code == "print(1)"));
    assert_eq!(state.phase(), CodePhase::AwaitingRun);
    assert_eq!(state.code(), "print(1)");
    assert_eq!(state.iteration(), 1);
}

#[test]
fn a_run_that_succeeds_is_judged() {
    let (state, _) = CodeIterationState::start("t");
    let (state, _) = state.step(generated("print(1)"));
    let (state, action) = state.step(ran(Ok("1\n")));
    assert!(matches!(
        action,
        CodeAction::Judge(r) if r.system_prompt == IS_TERMINATION_PROMPT && r.user_input
            == "Given the task: Here is the task for you: t, examine current result: 1\n, please decide whether the task is done or not"
    ));
    assert_eq!(state.phase(), CodePhase::AwaitingJudgment);
    assert_eq!(state.execution_result(), "1\n");
    assert_eq!(state.iteration(), 1);
}

#[test]
fn a_run_that_fails_is_not_judged_and_the_next_round_shows_the_error() {
    let (state, _) = CodeIterationState::start("t");
    let (state, _) = state.step(generated("print(1"));
    let (state, action) = state.step(ran(Err("Compilation error: eof")));
    assert!(is_generate(
        &action,
        "Failed to execute the code:\nprint(1, got the following errors:\nCompilation error: eof"
    ));
    assert_eq!(state.iteration(), 2);
    assert_eq!(state.verdict(), Verdict::Failed);
    assert_eq!(state.phase(), CodePhase::AwaitingCode);
    assert_eq!(state.execution_result(), "Compilation error: eof");
}

#[test]
fn a_rejected_result_leads_to_the_next_round() {
    let (state, _) = CodeIterationState::start("t");
    let (state, _) = state.step(generated("print(2)"));
    let (state, _) = state.step(ran(Ok("2")));
    let (state, action) = state.step(CodeEvent::Judged { terminate: false });
    assert!(is_generate(
        &action,
        "Executed the code below:\nprint(2)\n producing the following result, but the result is incorrect:\n2"
    ));
    assert_eq!(state.iteration(), 2);
    assert_eq!(state.verdict(), Verdict::Incorrect);
}

#[test]
fn an_accepted_result_does_not_end_the_loop() {
    let (state, _) = CodeIterationState::start("t");
    let (state, _) = state.step(generated("print(2)"));
    let (state, _) = state.step(ran(Ok("2")));
    let (state, action) = state.step(CodeEvent::Judged { terminate: true });
    assert!(matches!(action, CodeAction::Generate(_)));
    assert_eq!(state.iteration(), 2);
    assert_eq!(state.verdict(), Verdict::Success);
    assert_eq!(state.phase(), CodePhase::AwaitingCode);
}

#[test]
fn eight_failures_end_the_loop_without_a_ninth_request() {
    let (mut state, first) = CodeIterationState::start("t");
    assert!(matches!(first, CodeAction::Generate(_)));
    let mut requests = 1;
    for round in 1..=8u8 {
        assert_eq!(state.iteration(), round);
        let (s, action) = state.step(generated(&format!("code {round}")));
        assert!(matches!(action, CodeAction::Execute { .. }));
        let (s, action) = s.step(ran(Err(&format!("error {round}"))));
        state = s;
        if round < 8 {
            assert!(matches!(action, CodeAction::Generate(_)), "round {round}");
            requests += 1;
        } else {
            assert!(matches!(
                action,
                CodeAction::Finish { success: false, final_code, final_result }
                    if final_code == "code 8" && final_result == "error 8"
            ));
        }
    }
    assert_eq!(requests, 8);
    assert_eq!(state.iteration(), 8);
    assert_eq!(state.phase(), CodePhase::Exhausted);
    let (state, action) = state.step(generated("code 9"));
    assert!(matches!(action, CodeAction::Pending));
    let (state, action) = state.step(ran(Err("error 9")));
    assert!(matches!(action, CodeAction::Pending));
    let (state, action) = state.step(CodeEvent::Judged { terminate: true });
    assert!(matches!(action, CodeAction::Pending));
    assert_eq!(state.iteration(), 8);
    assert_eq!(state.code(), "code 8");
}

#[test]
fn eight_judged_rounds_end_the_loop_too() {
    let (mut state, _) = CodeIterationState::start("t");
    let mut requests = 1;
    for round in 1..=8u8 {
        let (s, _) = state.step(generated("c"));
        let (s, action) = s.step(ran(Ok("out")));
        assert!(matches!(action, CodeAction::Judge(_)));
        let (s, action) = s.step(CodeEvent::Judged { terminate: round % 2 == 0 });
        state = s;
        match action {
            CodeAction::Generate(_) => requests += 1,
            CodeAction::Finish { success, final_code, final_result } => {
                assert_eq!(round, 8);
                assert!(!success);
                assert_eq!(final_code, "c");
                assert_eq!(final_result, "out");
            }
            other => panic!("{other:?}"),
        }
    }
    assert_eq!(requests, 8);
    assert_eq!(state.verdict(), Verdict::Success);
}

#[test]
fn an_event_that_is_not_awaited_changes_nothing() {
    let (state, _) = CodeIterationState::start("t");
    let (state, action) = state.step(ran(Ok("out")));
    assert!(matches!(action, CodeAction::Pending));
    let (state, action) = state.step(CodeEvent::Judged { terminate: true });
    assert!(matches!(action, CodeAction::Pending));
    assert_eq!(state.phase(), CodePhase::AwaitingCode);
    assert_eq!(state.iteration(), 1);
    let (state, _) = state.step(generated("c"));
    let (state, action) = state.step(generated("d"));
    assert!(matches!(action, CodeAction::Pending));
    assert_eq!(state.code(), "c");
}

#[test]
fn the_agent_starts_the_loop() {
    let agent = ImmutableAgent::new("user_proxy", "you're user_proxy");
    let (state, action) = agent.code_with_python("key points");
    assert!(is_generate(&action, "Here is the task for you: key points"));
    assert_eq!(state.iteration(), 1);
}

#[test]
fn primes_up_to_one_hundred() {
    let usage = Usage { prompt_tokens: 0, completion_tokens: 0, total_tokens: 0 };
    let agent = ImmutableAgent::new("user_proxy", "you're user_proxy");
    let request = agent.planning_request("calculate prime numbers up to 100");
    assert_eq!(request.user_input, "calculate prime numbers up to 100");
    let key_points = "Define function checking primes; loop through 2-100 calling function; print primes";
    let plan_reply = format!(
        "{{\n \"my_goal\": \"goal is to help complete this mathematical computation efficiently\",\n \"steps_to_take\": [\"{key_points}\"]\n}}"
    );
    let plan = agent.next_step_planning(&classify_content(&plan_reply));
    assert_eq!(plan, vec![key_points.to_string()]);
    let stepper = agent.stepper(&plan).unwrap();
    assert_eq!(stepper.input, key_points);
    let tool_reply = format!(
        "<tool_call>\n{{\"arguments\":{{\"key_points\":\"{key_points}\"}}, \n\"name\":\"code_with_python\"}}\n</tool_call>"
    );
    let action = agent.furter_task_by_toolcall(&classify_content(&tool_reply)).unwrap();
    let task = match action {
        StepAction::Call(ToolRequest::GenerateCode { key_points }) => key_points,
        other => panic!("{other:?}"),
    };
    assert_eq!(task, key_points);
    let (state, action) = agent.code_with_python(&task);
    assert!(matches!(action, CodeAction::Generate(_)));
    let code_reply = "```python\ndef is_prime(n):\n    return n > 1 and all(n % d for d in range(2, n))\nfor n in range(2, 101):\n    if is_prime(n):\n        print(n)\n```";
    let code = extract_code(code_reply);
    assert!(code.starts_with("def is_prime(n):"));
    assert!(code.ends_with("print(n)"));
    let (state, action) = state.step(CodeEvent::Generated { code: code.clone() });
    assert!(matches!(action, CodeAction::Execute { code: c } if c == code));
    let output = "2\n3\n5\n7\n11\n13\n17\n19\n23\n29\n31\n37\n41\n43\n47\n53\n59\n61\n67\n71\n73\n79\n83\n89\n97\n";
    let (good, _, result) = run_python_wrapper(code.clone(), Ok(output.to_string()));
    assert!(good);
    let (state, action) = state.step(CodeEvent::Ran { outcome: Ok(result) });
    let judge_request = match action {
        CodeAction::Judge(r) => r,
        other => panic!("{other:?}"),
    };
    assert!(judge_request.user_input.contains(output));
    assert!(judge_request.user_input.contains(key_points));
    let judge_reply = output_nous_response(
        "```json\n{\n \"continue_or_terminate\": \"TERMINATE\",\n \"key_points\": [\"primes from 2 to 97\"]\n}\n```",
        ChatRole::Assistant,
        usage,
    );
    let (terminate, digest) = agent._is_termination(&judge_reply);
    assert!(terminate);
    assert_eq!(digest, "primes from 2 to 97");
    let (state, _) = state.step(CodeEvent::Judged { terminate });
    assert_eq!(state.verdict(), Verdict::Success);
    assert_eq!(state.execution_result(), output);
    match stepper.advance(Ok(CODE_PLACEHOLDER.to_string())) {
        StepOutcome::Done(result) => assert_eq!(result, "code is being generated"),
        other => panic!("{other:?}"),
    }
}

#[test]
fn one_block_of_code_is_extracted() {
    assert_eq!(extract_code("Sure.\n```python\nprint(1)\n```\nDone."), "print(1)");
    assert_eq!(extract_code("```python print(1) ```"), "print(1)");
    assert_eq!(extract_code("```python```"), "");
}

#[test]
fn several_blocks_are_joined_in_order() {
    let text = "```python\na = 1\n```\nthen\n```python\nprint(a)\n```";
    assert_eq!(extract_code(text), "a = 1print(a)");
}

#[test]
fn text_without_a_python_block_holds_no_code() {
    assert_eq!(extract_code("print(1)"), "");
    assert_eq!(extract_code("```\nprint(1)\n```"), "");
    assert_eq!(extract_code("```rust\nfn main() {}\n```"), "");
    assert_eq!(extract_code("```python\nprint(1)"), "");
    assert_eq!(extract_code(""), "");
}

#[test]
fn code_from_given_matches() {
    let found = vec![
        vec![Some("```python a ```".to_string()), Some(" a ".to_string())],
        vec![Some("x".to_string())],
        vec![Some("y".to_string()), None],
        vec![Some("z".to_string()), Some("\n b\n".to_string())],
    ];
    assert_eq!(code_from_matches(&found), "ab");
    assert_eq!(code_from_matches(&Vec::new()), "");
}

#[test]
fn fenced_blocks_with_their_language() {
    let text = "```python\nprint(1)\n```\nand\n``` sh \r\nls -l\r\n  ```\nand\n```\nplain\n```";
    let blocks = extract_code_blocks(text, false);
    assert_eq!(
        blocks,
        vec![
            (Some("python".to_string()), "print(1)".to_string()),
            (Some("sh".to_string()), "ls -l".to_string()),
            (None, "plain".to_string()),
        ]
    );
}

#[test]
fn a_fenced_block_of_several_lines_is_not_found() {
    assert_eq!(extract_code_blocks("```python\na = 1\nprint(a)\n```", false), vec![]);
}

#[test]
fn inline_code_is_found_when_asked_for() {
    let text = "use `x + 1` or ` y `";
    assert_eq!(extract_code_blocks(text, false), vec![]);
    assert_eq!(
        extract_code_blocks(text, true),
        vec![(None, "x + 1".to_string()), (None, "y".to_string())]
    );
}

#[test]
fn inline_code_comes_after_the_fenced_blocks() {
    let text = "`first` then\n```python\nprint(1)\n```";
    assert_eq!(
        extract_code_blocks(text, true),
        vec![
            (Some("python".to_string()), "print(1)".to_string()),
            (None, "first".to_string()),
            (None, "python\nprint(1)".to_string()),
        ]
    );
}

#[test]
fn blocks_from_given_matches() {
    let fenced = vec![
        vec![Some("all".to_string()), Some(" py ".to_string()), Some(" a ".to_string())],
        vec![Some("all".to_string()), None, None],
        vec![Some("all".to_string())],
    ];
    let inline = vec![vec![Some("`b`".to_string()), Some(" b".to_string())], vec![]];
    assert_eq!(
        blocks_from_matches(&fenced, Some(&inline)),
        vec![
            (Some("py".to_string()), "a".to_string()),
            (None, String::new()),
            (None, String::new()),
            (None, "b".to_string()),
            (None, String::new()),
        ]
    );
    assert_eq!(blocks_from_matches(&fenced, None).len(), 3);
}

#[test]
fn the_script_captures_what_is_printed() {
    assert_eq!(
        capture_script("print(1)"),
        "import io\nimport sys\noutput = io.StringIO()\nsys.stdout = output\nprint(1)\ncaptured_output = output.getvalue()"
    );
}

#[test]
fn each_report_of_the_sandbox_in_words() {
    assert_eq!(run_python_capture(SandboxOutcome::Captured("1\n".to_string())), Ok("1\n".to_string()));
    assert_eq!(
        run_python_capture(SandboxOutcome::NotCompiled("invalid syntax".to_string())),
        Err("Compilation error: invalid syntax".to_string())
    );
    assert_eq!(run_python_capture(SandboxOutcome::CapturedNoText), Err("res is not a string".to_string()));
    assert_eq!(
        run_python_capture(SandboxOutcome::NothingCaptured),
        Err("error getting captured_output".to_string())
    );
    assert_eq!(
        run_python_capture(SandboxOutcome::Raised(RaisedWith::Message("division by zero".to_string()))),
        Err("Code execution error message: division by zero".to_string())
    );
    assert_eq!(
        run_python_capture(SandboxOutcome::Raised(RaisedWith::NotText)),
        Err("Code execution error message: Unknown error".to_string())
    );
    assert_eq!(
        run_python_capture(SandboxOutcome::Raised(RaisedWith::Nothing)),
        Err("Code execution error message: No error message available".to_string())
    );
}

#[test]
fn a_round_is_good_when_the_run_succeeded() {
    assert_eq!(
        run_python_wrapper("c".to_string(), Ok("out".to_string())),
        (true, "c".to_string(), "out".to_string())
    );
    assert_eq!(
        run_python_wrapper("c".to_string(), Err("bad".to_string())),
        (false, "c".to_string(), "bad".to_string())
    );
}

#[test]
fn the_templates_embed_their_texts() {
    assert_eq!(iterate_coding_start_template("t"), "Here is the task for you: t");
    assert_eq!(
        iterate_coding_success_template("c", "r"),
        "Successfully executed the code below:\nc\n producing the following result:\nr"
    );
    assert_eq!(
        iterate_coding_incorrect_template("c", "r"),
        "Executed the code below:\nc\n producing the following result, but the result is incorrect:\nr"
    );
    assert_eq!(
        iterate_coding_fail_template("c", "e"),
        "Failed to execute the code:\nc, got the following errors:\ne"
    );
    assert_eq!(
        iterate_coding_history_template("t", "s"),
        "Reminder: you are working towards solving the following task: t. Here is a summary of the code iterations and their results: s\nNow let's retry: take care not to repeat previous errors! Try to adopt different approaches."
    );
    assert_eq!(
        iterate_code_retry_template("e"),
        "Error: e\nNow let's retry: take care not to repeat previous errors! Try to adopt different approaches."
    );
    assert_eq!(ITERATE_CODING_INVALID_TEMPLATE, "Failed to create valid Python code");
}

#[test]
fn the_grounding_check_names_the_day_twice() {
    let text = grounding_check_template("2024-05-01T");
    assert_eq!(text.matches("2024-05-01T").count(), 2);
    assert!(text.contains("include today's date 2024-05-01T in the key_points section"));
    assert!(text.contains("today's date is 2024-05-01T, What is the weather like in New York"));
    assert!(text.starts_with("\n<|im_start|>system"));
}
