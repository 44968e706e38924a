//! What holds of the agent's parts taken together.
//!
//! Each law is a proof over the same functions that the contracts of the
//! executable code are stated with.

use crate::arguments::{as_map, lemma_put, lookup, put};
use crate::code_iteration::{
    generations, lemma_generations_bounded, start_state, stepped, CodeActionView, CodeEventView,
    CodePhase, CodeStateView, MAX_ITER,
};
use crate::immutable_agent::{
    advanced, dispatched, planned, resolved, started, stepper_after, succeeded, StepActionView,
    StepOutcomeView, StepperView, ToolErrorView, ToolRequestView, TOOL_CODE_WITH_PYTHON,
    TOOL_GET_WEBPAGE_TEXT, TOOL_SEARCH_WITH_BING, TOOL_USE_INTRINSIC_KNOWLEDGE,
};
use crate::json::{json_object_of, json_string_map_of, member, JsonMemberView};
use crate::nous_structs::{
    classified, inserted, is_tool_call_text, parsed_tool_call, tool_call_payload, ContentView,
    ToolCallView,
};
use crate::prompts::folded_input;
use crate::text::trim;
use crate::utils::{key_points_field, next_move, object_span, planning_steps};
use vstd::prelude::*;

verus! {

/// The value of the last of `entries` with the name `key`, where there is
/// one.
pub open spec fn last_value(entries: Seq<(Seq<char>, Seq<char>)>, key: Seq<char>) -> Option<
    Seq<char>,
>
    decreases entries.len(),
{
    if entries.len() == 0 {
        None
    } else if entries.last().0 == key {
        Some(entries.last().1)
    } else {
        last_value(entries.drop_last(), key)
    }
}

/// Entries inserted one after the other give each name the value of its last
/// entry.
pub proof fn lemma_inserted(entries: Seq<(Seq<char>, Seq<char>)>, key: Seq<char>)
    ensures
        lookup(inserted(entries), key) == last_value(entries, key),
        as_map(inserted(entries)).contains_key(key) <==> last_value(entries, key) is Some,
        last_value(entries, key) matches Some(v) ==> as_map(inserted(entries))[key] == v,
    decreases entries.len(),
{
    if entries.len() > 0 {
        let before = inserted(entries.drop_last());
        lemma_inserted(entries.drop_last(), key);
        lemma_put(before, entries.last().0, entries.last().1);
        let after = put(before, entries.last().0, entries.last().1);
        assert(as_map(after) == as_map(before).insert(entries.last().0, entries.last().1));
        assert(as_map(after).contains_key(key) <==> lookup(after, key) is Some);
        assert(as_map(before).contains_key(key) <==> lookup(before, key) is Some);
        if lookup(after, key) is Some {
            assert(as_map(after)[key] == lookup(after, key)->0);
        }
        if lookup(before, key) is Some {
            assert(as_map(before)[key] == lookup(before, key)->0);
        }
    }
}

/// The classifier is exact. A reply that is framed by the two markers, and
/// holds between them a JSON object with a string `name` and, if any, a
/// mapping `arguments` of strings, is classified as the invocation of that
/// name with those arguments. Every other reply is classified as plain text,
/// and the text is the reply as it came.
pub proof fn law_classifier_exact(data: Seq<char>)
    ensures
        is_tool_call_text(data) ==> classified(data) == ContentView::ToolCall(
            parsed_tool_call(tool_call_payload(data)->0)->0,
        ),
        !is_tool_call_text(data) ==> classified(data) == ContentView::Text(data),
        !is_tool_call_text(data) && trim(data) == data ==> classified(data) == ContentView::Text(
            trim(data),
        ),
{
}

/// The invocation that a reply is classified as has the name and the
/// arguments that the reply encodes: where the object between the markers
/// has the members `members`, its `name` is the string `name` and its
/// `arguments` is an object that reads as the entries `entries`, the
/// content is the invocation of `name`, and each argument has the value of
/// its last entry.
pub proof fn law_classifier_keeps_what_is_encoded(
    data: Seq<char>,
    members: Seq<(Seq<char>, JsonMemberView)>,
    name: Seq<char>,
    text: Seq<char>,
    entries: Seq<(Seq<char>, Seq<char>)>,
    key: Seq<char>,
)
    requires
        tool_call_payload(data) matches Some(payload) && json_object_of(payload) == Some(members),
        member(members, "name"@) == Some(JsonMemberView::Text(name)),
        member(members, "arguments"@) == Some(JsonMemberView::Object(text)),
        json_string_map_of(text) == Some(entries),
    ensures
        classified(data) == ContentView::ToolCall(
            ToolCallView { name, arguments: Some(as_map(inserted(entries))) },
        ),
        as_map(inserted(entries)).contains_key(key) <==> last_value(entries, key) is Some,
        last_value(entries, key) matches Some(v) ==> as_map(inserted(entries))[key] == v,
{
    lemma_inserted(entries, key);
}

/// A reply without arguments is an invocation without arguments: where
/// `name` is a string and `arguments` is absent or `null`, the content is
/// the invocation of `name` with no arguments.
pub proof fn law_classifier_without_arguments(
    data: Seq<char>,
    members: Seq<(Seq<char>, JsonMemberView)>,
    name: Seq<char>,
)
    requires
        tool_call_payload(data) matches Some(payload) && json_object_of(payload) == Some(members),
        member(members, "name"@) == Some(JsonMemberView::Text(name)),
        member(members, "arguments"@) is None || member(members, "arguments"@) == Some(
            JsonMemberView::Null,
        ),
    ensures
        classified(data) == ContentView::ToolCall(ToolCallView { name, arguments: None }),
{
}

/// A reply that lacks the list `key_points` yields no key points, whatever
/// else it holds; so does one whose list is empty.
pub proof fn law_no_key_points(
    input: Seq<char>,
    termination_key: Seq<char>,
    next_marker: Option<Seq<char>>,
)
    requires
        key_points_field(object_span(input)) is None || key_points_field(object_span(input))
            == Some(Seq::<char>::empty()),
    ensures
        next_move(input, termination_key, next_marker).2 == Seq::<Seq<char>>::empty(),
{
}

/// What the extractor returns is a function of the text and the keys alone:
/// two calls on one text return the same.
pub proof fn law_extraction_repeats(
    input: Seq<char>,
    termination_key: Seq<char>,
    next_marker: Option<Seq<char>>,
    first: (bool, Option<Seq<char>>, Seq<Seq<char>>),
    second: (bool, Option<Seq<char>>, Seq<Seq<char>>),
)
    requires
        first == next_move(input, termination_key, next_marker),
        second == next_move(input, termination_key, next_marker),
    ensures
        first == second,
{
}

/// The steps are taken in the order in which they were planned. Where a
/// planner's reply lists `steps`, the run is over that list turned round, as
/// the planner hands it on, and step `i` gives `results[i]`: the run begins
/// with the first step as its input; the input of step `k` is the result of
/// step `k - 1` with step `k`; and the end of step `k` leads to step
/// `k + 1`, or, after the last step, to the end of the run with the last
/// result.
pub proof fn law_plan_order(steps: Seq<Seq<char>>, results: Seq<Seq<char>>, k: int)
    requires
        0 <= k < steps.len(),
        k < results.len(),
    ensures
        started(steps.reverse()) == Some(stepper_after(steps.reverse(), results, 0)),
        stepper_after(steps.reverse(), results, k).input == (if k == 0 {
            steps[0]
        } else {
            folded_input(results[k - 1], steps[k])
        }),
        k + 1 < steps.len() ==> succeeded(stepper_after(steps.reverse(), results, k), results[k])
            == StepOutcomeView::Continue(stepper_after(steps.reverse(), results, k + 1)),
        k + 1 == steps.len() ==> succeeded(stepper_after(steps.reverse(), results, k), results[k])
            == StepOutcomeView::Done(results[k]),
{
    let stack = steps.reverse();
    assert(stack.drop_last() =~= stack.subrange(0, stack.len() - 1));
    let pending = stack.subrange(0, stack.len() - 1 - k);
    if k + 1 < stack.len() {
        assert(pending.drop_last() =~= stack.subrange(0, stack.len() - 2 - k));
        assert(pending.last() == stack[stack.len() - 2 - k]);
    }
}

/// The planner hands on what it read, turned round once.
pub proof fn law_planner_reverses(reply: Seq<char>)
    ensures
        planned(ContentView::Text(reply)) == planning_steps(reply).reverse(),
        planned(ContentView::Text(reply)).reverse() == planning_steps(reply),
{
    let steps = planning_steps(reply);
    assert(steps.reverse().reverse() =~= steps);
}

/// An invocation whose name is no tool's is not dispatched: the error is
/// `UnrecognizedTool`, whatever its arguments, and the step that it was to
/// resolve fails with that error.
pub proof fn law_unrecognized_tool(call: ToolCallView, with_intrinsic: bool)
    requires
        call.name != TOOL_GET_WEBPAGE_TEXT@,
        call.name != TOOL_SEARCH_WITH_BING@,
        call.name != TOOL_CODE_WITH_PYTHON@,
        with_intrinsic ==> call.name != TOOL_USE_INTRINSIC_KNOWLEDGE@,
    ensures
        dispatched(call, with_intrinsic) == Err::<ToolRequestView, ToolErrorView>(
            ToolErrorView::UnrecognizedTool,
        ),
        resolved(ContentView::ToolCall(call), with_intrinsic) == Err::<
            StepActionView,
            ToolErrorView,
        >(ToolErrorView::UnrecognizedTool),
{
}

/// A step that fails changes nothing: the stepper that comes back is the one
/// that went in, and nothing computed before is lost.
pub proof fn law_failure_keeps_state(s: StepperView, reason: ToolErrorView)
    ensures
        advanced(s, Err(reason)) == (StepOutcomeView::Failed { stepper: s, reason }),
{
}

/// The loop of code generation asks for code at most [`MAX_ITER`] times,
/// the first request counted, whatever the completion service, the sandbox
/// and the judge reply, and however many replies there are.
pub proof fn law_bounded_iteration(task: Seq<char>, events: Seq<CodeEventView>)
    ensures
        1 + generations(start_state(task), events) <= MAX_ITER,
{
    lemma_generations_bounded(start_state(task), events);
}

/// In round [`MAX_ITER`] a run that fails ends the loop: the loop
/// finishes without success, with the code and the error of that round, and
/// asks for nothing more.
pub proof fn law_exhaustion(s: CodeStateView, error: Seq<char>)
    requires
        s.iteration == MAX_ITER,
        s.phase == CodePhase::AwaitingRun,
    ensures
        stepped(s, CodeEventView::Ran { outcome: Err(error) }).1 == (CodeActionView::Finish {
            success: false,
            final_code: s.code,
            final_result: error,
        }),
        stepped(s, CodeEventView::Ran { outcome: Err(error) }).0.phase == CodePhase::Exhausted,
        forall|e: CodeEventView|
            stepped(stepped(s, CodeEventView::Ran { outcome: Err(error) }).0, e).1
                == CodeActionView::Pending,
{
}

/// The round never leaves its bounds: a step from a round between 1 and
/// [`MAX_ITER`] leads to a round between 1 and [`MAX_ITER`].
pub proof fn law_round_in_bounds(s: CodeStateView, e: CodeEventView)
    requires
        1 <= s.iteration <= MAX_ITER,
    ensures
        1 <= stepped(s, e).0.iteration <= MAX_ITER,
        s.iteration <= stepped(s, e).0.iteration <= s.iteration + 1,
{
}

} // verus!
