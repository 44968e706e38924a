//! The agent: who it is, and the decisions of its control loop.
//!
//! The agent plans a task as a list of steps, works the steps off one by one,
//! resolves each to a tool, and has results judged. What it asks of the
//! completion service is a [`CompletionRequest`]; what the service replied
//! comes back classified, as a [`NousContent`]. Sending the one and waiting
//! for the other is the caller's part.

use crate::code_iteration::{generate_request, start_state, CodeAction, CodeActionView, CodeIterationState};
use crate::nous_structs::{
    rendered, ChatRole, ContentView, NousContent, NousResponseMessage, NousToolCall, ToolCallView,
};
use crate::prompts::{
    folded_input, folded_input_text, iterate_coding_start, termination_question,
    termination_question_text, CODE_PLACEHOLDER, FURTER_TASK_BY_TOOLCALL_PROMPT,
    IS_TERMINATION_PROMPT, NEXT_STEP_BY_TOOLCALL_PROMPT, NEXT_STEP_PLANNING_PROMPT,
};
use crate::text::{chars_of, join, join_text, same_text, string_of};
use crate::utils::{next_move, parse_next_move_and_, parse_planning_steps, planning_steps, TERMINATION_KEY};
use vstd::prelude::*;

verus! {

/// The tool that fetches the text of a page; it takes [`ARG_URL`].
pub const TOOL_GET_WEBPAGE_TEXT: &'static str = "get_webpage_text";

/// The tool that searches the web; it takes [`ARG_QUERY`].
pub const TOOL_SEARCH_WITH_BING: &'static str = "search_with_bing";

/// The tool that writes and runs code; it takes [`ARG_KEY_POINTS`].
pub const TOOL_CODE_WITH_PYTHON: &'static str = "code_with_python";

/// The tool that answers from what the model knows; it takes [`ARG_TASK`].
pub const TOOL_USE_INTRINSIC_KNOWLEDGE: &'static str = "use_intrinsic_knowledge";

/// The argument that names the page to fetch.
pub const ARG_URL: &'static str = "url";

/// The argument that holds what to search for.
pub const ARG_QUERY: &'static str = "query";

/// The argument that describes the code to write.
pub const ARG_KEY_POINTS: &'static str = "key_points";

/// The argument that states the task to answer.
pub const ARG_TASK: &'static str = "task";

/// What a run reports when it is given no step.
pub const NO_TASK: &'static str = "no task to handle";

/// What the user types to end the session.
pub const STOP_COMMAND: &'static str = "stop";

/// Who an agent is: one value stands for one role. It is made once and never
/// changed.
#[derive(Debug)]
pub struct ImmutableAgent {
    pub name: String,
    pub system_prompt: String,
    /// The settings of the completion service for this agent, where it has
    /// its own.
    pub llm_config: Option<String>,
    /// What the agent's tools are, as the completion service is told.
    pub tool_metadata: String,
    /// What the agent is for.
    pub description: String,
}

/// What is asked of the completion service: a system prompt and the user's
/// input.
#[derive(Debug)]
pub struct CompletionRequest {
    pub system_prompt: String,
    pub user_input: String,
}

/// The mathematical value of a [`CompletionRequest`].
pub struct CompletionRequestView {
    pub system_prompt: Seq<char>,
    pub user_input: Seq<char>,
}

impl View for CompletionRequest {
    type V = CompletionRequestView;

    open spec fn view(&self) -> CompletionRequestView {
        CompletionRequestView { system_prompt: self.system_prompt@, user_input: self.user_input@ }
    }
}

impl CompletionRequest {
    /// The messages that the request appends to the conversation: the
    /// system prompt, then the user's input. The service's reply is not
    /// among them.
    pub fn messages(&self) -> (r: Vec<(ChatRole, String)>)
        ensures
            r@.len() == 2,
            r@[0].0 == ChatRole::System && r@[0].1@ == self@.system_prompt,
            r@[1].0 == ChatRole::User && r@[1].1@ == self@.user_input,
    {
        let mut out: Vec<(ChatRole, String)> = Vec::new();
        out.push((ChatRole::System, self.system_prompt.clone()));
        out.push((ChatRole::User, self.user_input.clone()));
        out
    }
}

/// Why a tool gave no result.
#[derive(Debug)]
pub enum ToolError {
    /// The invocation names no tool that is known.
    UnrecognizedTool,
    /// The invocation lacks the argument of this name.
    MissingArgument(String),
    /// The collaborator behind the tool failed, with this message.
    CollaboratorFailed(String),
}

/// The mathematical value of a [`ToolError`].
pub enum ToolErrorView {
    UnrecognizedTool,
    MissingArgument(Seq<char>),
    CollaboratorFailed(Seq<char>),
}

impl View for ToolError {
    type V = ToolErrorView;

    open spec fn view(&self) -> ToolErrorView {
        match self {
            ToolError::UnrecognizedTool => ToolErrorView::UnrecognizedTool,
            ToolError::MissingArgument(name) => ToolErrorView::MissingArgument(name@),
            ToolError::CollaboratorFailed(message) => ToolErrorView::CollaboratorFailed(message@),
        }
    }
}

/// What a tool invocation asks the caller to do.
#[derive(Debug)]
pub enum ToolRequest {
    /// Fetch the text of the page at `url`.
    FetchPage { url: String },
    /// Search the web for `query`.
    Search { query: String },
    /// Run the loop of code generation on `key_points`. The step's result is
    /// then the placeholder, whatever the loop gives.
    GenerateCode { key_points: String },
    /// Plan `task` anew and work its steps off. Its result ends the whole
    /// run.
    UseIntrinsic { task: String },
}

/// The mathematical value of a [`ToolRequest`].
pub enum ToolRequestView {
    FetchPage { url: Seq<char> },
    Search { query: Seq<char> },
    GenerateCode { key_points: Seq<char> },
    UseIntrinsic { task: Seq<char> },
}

impl View for ToolRequest {
    type V = ToolRequestView;

    open spec fn view(&self) -> ToolRequestView {
        match self {
            ToolRequest::FetchPage { url } => ToolRequestView::FetchPage { url: url@ },
            ToolRequest::Search { query } => ToolRequestView::Search { query: query@ },
            ToolRequest::GenerateCode { key_points } => ToolRequestView::GenerateCode {
                key_points: key_points@,
            },
            ToolRequest::UseIntrinsic { task } => ToolRequestView::UseIntrinsic { task: task@ },
        }
    }
}

/// What a reply resolves a step to.
#[derive(Debug)]
pub enum StepAction {
    /// The reply answers the step directly, with this text.
    Answer(String),
    /// The reply invokes a tool.
    Call(ToolRequest),
}

/// The mathematical value of a [`StepAction`].
pub enum StepActionView {
    Answer(Seq<char>),
    Call(ToolRequestView),
}

impl View for StepAction {
    type V = StepActionView;

    open spec fn view(&self) -> StepActionView {
        match self {
            StepAction::Answer(text) => StepActionView::Answer(text@),
            StepAction::Call(request) => StepActionView::Call(request@),
        }
    }
}

/// The view of what resolving a step returns.
pub open spec fn resolution_view(r: Result<StepAction, ToolError>) -> Result<
    StepActionView,
    ToolErrorView,
> {
    match r {
        Ok(action) => Ok(action@),
        Err(error) => Err(error@),
    }
}

/// The view of what the dispatcher returns.
pub open spec fn dispatch_view(r: Result<ToolRequest, ToolError>) -> Result<
    ToolRequestView,
    ToolErrorView,
> {
    match r {
        Ok(request) => Ok(request@),
        Err(error) => Err(error@),
    }
}

/// The value of the argument `key` of the invocation `call`, where it has
/// one.
pub open spec fn argument(call: ToolCallView, key: Seq<char>) -> Option<Seq<char>> {
    match call.arguments {
        Some(arguments) => if arguments.contains_key(key) {
            Some(arguments[key])
        } else {
            None
        },
        None => None,
    }
}

/// What the invocation `call` asks for. `with_intrinsic` says whether
/// [`TOOL_USE_INTRINSIC_KNOWLEDGE`] is among the tools.
///
/// Each tool requires its one argument: without it the invocation fails with
/// `MissingArgument` and the argument's name. A name that is no tool's fails
/// with `UnrecognizedTool`.
pub open spec fn dispatched(call: ToolCallView, with_intrinsic: bool) -> Result<
    ToolRequestView,
    ToolErrorView,
> {
    if call.name == TOOL_GET_WEBPAGE_TEXT@ {
        match argument(call, ARG_URL@) {
            Some(url) => Ok(ToolRequestView::FetchPage { url }),
            None => Err(ToolErrorView::MissingArgument(ARG_URL@)),
        }
    } else if call.name == TOOL_SEARCH_WITH_BING@ {
        match argument(call, ARG_QUERY@) {
            Some(query) => Ok(ToolRequestView::Search { query }),
            None => Err(ToolErrorView::MissingArgument(ARG_QUERY@)),
        }
    } else if call.name == TOOL_CODE_WITH_PYTHON@ {
        match argument(call, ARG_KEY_POINTS@) {
            Some(key_points) => Ok(ToolRequestView::GenerateCode { key_points }),
            None => Err(ToolErrorView::MissingArgument(ARG_KEY_POINTS@)),
        }
    } else if with_intrinsic && call.name == TOOL_USE_INTRINSIC_KNOWLEDGE@ {
        match argument(call, ARG_TASK@) {
            Some(task) => Ok(ToolRequestView::UseIntrinsic { task }),
            None => Err(ToolErrorView::MissingArgument(ARG_TASK@)),
        }
    } else {
        Err(ToolErrorView::UnrecognizedTool)
    }
}

/// The value of the argument `key` of `invocation`, or the error that it is
/// missing.
fn required_argument(invocation: &NousToolCall, key: &str) -> (r: Result<String, ToolError>)
    ensures
        match r {
            Ok(value) => argument(invocation@, key@) == Some(value@),
            Err(error) => argument(invocation@, key@) is None && error@
                == ToolErrorView::MissingArgument(key@),
        },
{
    match &invocation.arguments {
        Some(arguments) => match arguments.get(key) {
            Some(value) => Ok(value.clone()),
            None => Err(ToolError::MissingArgument(String::from_str(key))),
        },
        None => Err(ToolError::MissingArgument(String::from_str(key))),
    }
}

/// What `invocation` asks for, among the tools that fetch, search and write
/// code and, where `with_intrinsic` holds, the one that answers from what the
/// model knows.
pub fn dispatch_among(invocation: &NousToolCall, with_intrinsic: bool) -> (r: Result<
    ToolRequest,
    ToolError,
>)
    ensures
        dispatch_view(r) == dispatched(invocation@, with_intrinsic),
{
    let name = invocation.name.as_str();
    if same_text(name, TOOL_GET_WEBPAGE_TEXT) {
        match required_argument(invocation, ARG_URL) {
            Ok(url) => Ok(ToolRequest::FetchPage { url }),
            Err(e) => Err(e),
        }
    } else if same_text(name, TOOL_SEARCH_WITH_BING) {
        match required_argument(invocation, ARG_QUERY) {
            Ok(query) => Ok(ToolRequest::Search { query }),
            Err(e) => Err(e),
        }
    } else if same_text(name, TOOL_CODE_WITH_PYTHON) {
        match required_argument(invocation, ARG_KEY_POINTS) {
            Ok(key_points) => Ok(ToolRequest::GenerateCode { key_points }),
            Err(e) => Err(e),
        }
    } else if with_intrinsic && same_text(name, TOOL_USE_INTRINSIC_KNOWLEDGE) {
        match required_argument(invocation, ARG_TASK) {
            Ok(task) => Ok(ToolRequest::UseIntrinsic { task }),
            Err(e) => Err(e),
        }
    } else {
        Err(ToolError::UnrecognizedTool)
    }
}

/// What `invocation` asks for, among all four tools.
pub fn dispatch(invocation: &NousToolCall) -> (r: Result<ToolRequest, ToolError>)
    ensures
        dispatch_view(r) == dispatched(invocation@, true),
{
    dispatch_among(invocation, true)
}

/// What a collaborator's answer means for the step: its text is the step's
/// result, and its failure is the error `CollaboratorFailed` with the
/// failure's message.
pub fn collaborator_result(outcome: Result<String, String>) -> (r: Result<String, ToolError>)
    ensures
        match (outcome, r) {
            (Ok(text), Ok(result)) => result@ == text@,
            (Err(message), Err(error)) => error@ == ToolErrorView::CollaboratorFailed(message@),
            _ => false,
        },
{
    match outcome {
        Ok(text) => Ok(text),
        Err(message) => Err(ToolError::CollaboratorFailed(message)),
    }
}

/// The result of the step that `request` was carried out for, given what
/// carrying it out gave.
pub open spec fn tool_result_of(request: ToolRequestView, outcome: Result<Seq<char>, Seq<char>>) -> Result<
    Seq<char>,
    ToolErrorView,
> {
    match request {
        ToolRequestView::GenerateCode { key_points } => Ok(CODE_PLACEHOLDER@),
        _ => match outcome {
            Ok(text) => Ok(text),
            Err(message) => Err(ToolErrorView::CollaboratorFailed(message)),
        },
    }
}

/// The result of the step that `request` was carried out for. `outcome` is
/// what the collaborator, the loop of code generation or the run of the
/// sub-task returned.
///
/// A step that was handed to code generation has the placeholder as its
/// result, whatever the loop returned. Every other step has the text that
/// came back, or fails with `CollaboratorFailed`.
pub fn tool_result(request: &ToolRequest, outcome: Result<String, String>) -> (r: Result<
    String,
    ToolError,
>)
    ensures
        match r {
            Ok(text) => tool_result_of(request@, crate::exec_python::result_view(outcome)) == Ok::<
                Seq<char>,
                ToolErrorView,
            >(text@),
            Err(error) => tool_result_of(request@, crate::exec_python::result_view(outcome))
                == Err::<Seq<char>, ToolErrorView>(error@),
        },
{
    match request {
        ToolRequest::GenerateCode { .. } => Ok(String::from_str(CODE_PLACEHOLDER)),
        _ => collaborator_result(outcome),
    }
}

impl ToolError {
    /// The error in words.
    pub open spec fn reason_of(e: ToolErrorView) -> Seq<char> {
        match e {
            ToolErrorView::UnrecognizedTool => "Unrecognized tool"@,
            ToolErrorView::MissingArgument(name) => "Missing '"@ + name + "' argument"@,
            ToolErrorView::CollaboratorFailed(message) => message,
        }
    }

    /// The error in words.
    pub fn reason(&self) -> (r: String)
        ensures
            r@ == Self::reason_of(self@),
    {
        match self {
            ToolError::UnrecognizedTool => String::from_str("Unrecognized tool"),
            ToolError::MissingArgument(name) => {
                let mut out = String::from_str("Missing '");
                out.append(name.as_str());
                out.append("' argument");
                out
            },
            ToolError::CollaboratorFailed(message) => message.clone(),
        }
    }
}

impl ToolRequest {
    /// Whether the result of this request ends the whole run.
    pub fn ends_run(&self) -> (r: bool)
        ensures
            r == (self@ is UseIntrinsic),
    {
        match self {
            ToolRequest::UseIntrinsic { .. } => true,
            _ => false,
        }
    }
}

/// What a line typed by the user means.
#[derive(Debug)]
pub enum Feedback {
    /// The user ends the session.
    Stop,
    /// The user said this.
    Input(String),
}

/// A line without the line break at its end: without a final `\n` and
/// without a `\r` that then stands last.
pub open spec fn line_content(line: Seq<char>) -> Seq<char> {
    let a = if line.len() > 0 && line.last() == '\n' {
        line.drop_last()
    } else {
        line
    };
    if a.len() > 0 && a.last() == '\r' {
        a.drop_last()
    } else {
        a
    }
}

/// The steps that a planner's reply lists, turned round: the step to take
/// first stands last. A reply that is a tool invocation lists none.
pub open spec fn planned(reply: ContentView) -> Seq<Seq<char>> {
    match reply {
        ContentView::Text(text) => planning_steps(text).reverse(),
        ContentView::ToolCall(_) => Seq::empty(),
    }
}

/// What a reply resolves a step to. `with_intrinsic` says whether
/// [`TOOL_USE_INTRINSIC_KNOWLEDGE`] is among the tools.
pub open spec fn resolved(reply: ContentView, with_intrinsic: bool) -> Result<
    StepActionView,
    ToolErrorView,
> {
    match reply {
        ContentView::Text(text) => Ok(StepActionView::Answer(text)),
        ContentView::ToolCall(call) => match dispatched(call, with_intrinsic) {
            Ok(request) => Ok(StepActionView::Call(request)),
            Err(error) => Err(error),
        },
    }
}

/// A reply as one text.
pub open spec fn reply_text(reply: &NousContent) -> Seq<char> {
    match reply {
        NousContent::Text(text) => text@,
        NousContent::NousToolCall(call) => rendered(call.name@, call.entries()),
    }
}

/// The judge's verdict in a reply with the text `text`: whether to
/// terminate, and the key points with a comma between each two.
pub open spec fn judged(text: Seq<char>) -> (bool, Seq<char>) {
    let found = next_move(text, TERMINATION_KEY@, None);
    (found.0, join(found.2, ","@))
}

/// What the judge found in a reply.
#[derive(Debug)]
pub struct JudgmentResult {
    /// Whether the task is done.
    pub terminate: bool,
    /// Who is to handle what comes next, where the reply names someone.
    pub next_handler: Option<String>,
    /// The key points of the current result, in order.
    pub key_points: Vec<String>,
}

/// The steps of a run that are still to be taken, with the input of the step
/// that is being taken.
#[derive(Debug)]
pub struct Stepper {
    /// The steps after the current one; the next to take stands last.
    pub pending: Vec<String>,
    /// What is sent to resolve the current step.
    pub input: String,
    /// The result of the step before the current one, where there was one.
    pub last_result: Option<String>,
}

/// The mathematical value of a [`Stepper`].
pub struct StepperView {
    pub pending: Seq<Seq<char>>,
    pub input: Seq<char>,
    pub last_result: Option<Seq<char>>,
}

impl View for Stepper {
    type V = StepperView;

    open spec fn view(&self) -> StepperView {
        StepperView {
            pending: self.pending.deep_view(),
            input: self.input@,
            last_result: self.last_result.deep_view(),
        }
    }
}

/// Why a run ended without a final result.
#[derive(Debug)]
pub enum StepperError {
    /// There was no step to take.
    NoTask,
    /// A step failed and the run was given up: the result of the last step
    /// that succeeded, where there was one, and the reason in words.
    Aborted { partial: Option<String>, reason: String },
}

/// The mathematical value of a [`StepperError`].
pub enum StepperErrorView {
    NoTask,
    Aborted { partial: Option<Seq<char>>, reason: Seq<char> },
}

impl View for StepperError {
    type V = StepperErrorView;

    open spec fn view(&self) -> StepperErrorView {
        match self {
            StepperError::NoTask => StepperErrorView::NoTask,
            StepperError::Aborted { partial, reason } => StepperErrorView::Aborted {
                partial: partial.deep_view(),
                reason: reason@,
            },
        }
    }
}

/// What the end of a step leads to.
#[derive(Debug)]
pub enum StepOutcome {
    /// The next step, its input made of the result and the step's task.
    Continue(Stepper),
    /// The end of the run, with its final result.
    Done(String),
    /// The step failed. The stepper is as it was: the caller may resolve the
    /// step again, or give the run up with [`Stepper::abort`].
    Failed { stepper: Stepper, reason: ToolError },
}

/// The mathematical value of a [`StepOutcome`].
pub enum StepOutcomeView {
    Continue(StepperView),
    Done(Seq<char>),
    Failed { stepper: StepperView, reason: ToolErrorView },
}

impl View for StepOutcome {
    type V = StepOutcomeView;

    open spec fn view(&self) -> StepOutcomeView {
        match self {
            StepOutcome::Continue(s) => StepOutcomeView::Continue(s@),
            StepOutcome::Done(result) => StepOutcomeView::Done(result@),
            StepOutcome::Failed { stepper, reason } => StepOutcomeView::Failed {
                stepper: stepper@,
                reason: reason@,
            },
        }
    }
}

/// The stepper at the start of a run over `stack`, whose last step is taken
/// first; `None` where `stack` is empty.
pub open spec fn started(stack: Seq<Seq<char>>) -> Option<StepperView> {
    if stack.len() == 0 {
        None
    } else {
        Some(StepperView { pending: stack.drop_last(), input: stack.last(), last_result: None })
    }
}

/// What follows the step of `s` when it has given `result`: the next step,
/// whose input embeds `result`, or the end of the run with `result`.
pub open spec fn succeeded(s: StepperView, result: Seq<char>) -> StepOutcomeView {
    if s.pending.len() == 0 {
        StepOutcomeView::Done(result)
    } else {
        StepOutcomeView::Continue(
            StepperView {
                pending: s.pending.drop_last(),
                input: folded_input(result, s.pending.last()),
                last_result: Some(result),
            },
        )
    }
}

/// What follows the step of `s` on `outcome`.
pub open spec fn advanced(s: StepperView, outcome: Result<Seq<char>, ToolErrorView>) -> StepOutcomeView {
    match outcome {
        Ok(result) => succeeded(s, result),
        Err(reason) => StepOutcomeView::Failed { stepper: s, reason },
    }
}

/// The input of step `k` of a run over `stack` in which step `i` gives
/// `results[i]`.
pub open spec fn step_input(stack: Seq<Seq<char>>, results: Seq<Seq<char>>, k: int) -> Seq<char> {
    if k == 0 {
        stack[stack.len() - 1]
    } else {
        folded_input(results[k - 1], stack[stack.len() - 1 - k])
    }
}

/// The stepper of a run over `stack` after `k` steps have succeeded with
/// `results`.
pub open spec fn stepper_after(stack: Seq<Seq<char>>, results: Seq<Seq<char>>, k: int) -> StepperView {
    StepperView {
        pending: stack.subrange(0, stack.len() - 1 - k),
        input: step_input(stack, results, k),
        last_result: if k == 0 {
            None
        } else {
            Some(results[k - 1])
        },
    }
}

impl Stepper {
    /// Takes what the current step came to.
    ///
    /// A result makes the next step current, with the input `Here is the
    /// result from previous step: ` and the result, `, here is the next
    /// task: ` and the step; after the last step the result is the final
    /// one. An error leaves the stepper as it was and is handed back.
    pub fn advance(self, outcome: Result<String, ToolError>) -> (r: StepOutcome)
        ensures
            r@ == advanced(
                self@,
                match outcome {
                    Ok(result) => Ok(result@),
                    Err(reason) => Err(reason@),
                },
            ),
    {
        match outcome {
            Ok(result) => {
                let mut pending = self.pending;
                let ghost before = pending.deep_view();
                match pending.pop() {
                    Some(next) => {
                        assert(pending.deep_view() =~= before.drop_last());
                        assert(before.last() == next@);
                        let input = folded_input_text(result.as_str(), next.as_str());
                        StepOutcome::Continue(
                            Stepper { pending, input, last_result: Some(result) },
                        )
                    },
                    None => {
                        assert(before.len() == 0);
                        StepOutcome::Done(result)
                    },
                }
            },
            Err(reason) => StepOutcome::Failed { stepper: self, reason },
        }
    }

    /// Gives the run up for `reason`: the error carries the result of the
    /// last step that succeeded, and the reason in words.
    pub fn abort(self, reason: &ToolError) -> (r: StepperError)
        ensures
            r@ == (StepperErrorView::Aborted {
                partial: self@.last_result,
                reason: ToolError::reason_of(reason@),
            }),
    {
        StepperError::Aborted { partial: self.last_result, reason: reason.reason() }
    }
}

impl StepperError {
    /// The error in words.
    pub fn message(&self) -> (r: String)
        ensures
            r@ == match self@ {
                StepperErrorView::NoTask => NO_TASK@,
                StepperErrorView::Aborted { partial, reason } => reason,
            },
    {
        match self {
            StepperError::NoTask => String::from_str(NO_TASK),
            StepperError::Aborted { partial, reason } => reason.clone(),
        }
    }
}

/// A copy of `v`, string for string.
fn copy_strings(v: &Vec<String>) -> (r: Vec<String>)
    ensures
        r.deep_view() == v.deep_view(),
{
    let mut out: Vec<String> = Vec::new();
    let mut i: usize = 0;
    while i < v.len()
        invariant
            i <= v.len(),
            out.deep_view() == v.deep_view().take(i as int),
        decreases v.len() - i,
    {
        let ghost before = out.deep_view();
        out.push(v[i].clone());
        assert(out.deep_view() =~= before.push(v@[i as int]@));
        assert(v.deep_view().take(i + 1) =~= v.deep_view().take(i as int).push(v@[i as int]@));
        i = i + 1;
    }
    assert(v.deep_view().take(v.len() as int) =~= v.deep_view());
    out
}

/// `v` turned round.
fn reversed(v: Vec<String>) -> (r: Vec<String>)
    ensures
        r.deep_view() == v.deep_view().reverse(),
{
    let mut rest = v;
    let ghost all = rest.deep_view();
    let mut out: Vec<String> = Vec::new();
    while rest.len() > 0
        invariant
            rest.deep_view() == all.take(rest.len() as int),
            rest.len() <= all.len(),
            out.deep_view() == all.reverse().take(all.len() - rest.len()),
        decreases rest.len(),
    {
        let ghost n = rest.len();
        let ghost before_rest = rest.deep_view();
        let ghost before_out = out.deep_view();
        let last = rest.pop().unwrap();
        assert(rest.deep_view() =~= before_rest.drop_last());
        assert(last@ == before_rest.last());
        out.push(last);
        assert(out.deep_view() =~= before_out.push(last@));
        assert(all.reverse().take(all.len() - n + 1) =~= all.reverse().take(all.len() - n).push(
            all[n - 1],
        ));
        assert(rest.deep_view() =~= all.take(rest.len() as int));
    }
    assert(all.reverse().take(all.len() as int) =~= all.reverse());
    out
}

impl ImmutableAgent {
    /// The agent `name` with the system prompt `system_prompt`, without
    /// settings of its own, tools or description.
    pub fn new(name: &str, system_prompt: &str) -> (r: Self)
        ensures
            r.name@ == name@,
            r.system_prompt@ == system_prompt@,
            r.llm_config is None,
            r.tool_metadata@ == Seq::<char>::empty(),
            r.description@ == Seq::<char>::empty(),
    {
        ImmutableAgent {
            name: String::from_str(name),
            system_prompt: String::from_str(system_prompt),
            llm_config: None,
            tool_metadata: String::new(),
            description: String::new(),
        }
    }

    /// What a line that the user typed means: without its line break, the
    /// command [`STOP_COMMAND`] ends the session and everything else is the
    /// user's input.
    pub fn get_user_feedback(&self, line: &str) -> (r: Feedback)
        ensures
            match r {
                Feedback::Stop => line_content(line@) == STOP_COMMAND@,
                Feedback::Input(input) => input@ == line_content(line@) && input@
                    != STOP_COMMAND@,
            },
    {
        let v = chars_of(line);
        let mut end: usize = v.len();
        if end > 0 && v[end - 1] == '\n' {
            end = end - 1;
        }
        if end > 0 && v[end - 1] == '\r' {
            end = end - 1;
        }
        proof {
            let a = if v@.len() > 0 && v@.last() == '\n' {
                v@.drop_last()
            } else {
                v@
            };
            if a.len() > 0 && a.last() == '\r' {
                assert(a.drop_last() =~= v@.subrange(0, end as int));
            } else {
                assert(a =~= v@.subrange(0, end as int));
            }
        }
        let input = string_of(&v, 0, end);
        if same_text(input.as_str(), STOP_COMMAND) {
            Feedback::Stop
        } else {
            Feedback::Input(input)
        }
    }

    /// The request that has `input` planned.
    pub fn planning_request(&self, input: &str) -> (r: CompletionRequest)
        ensures
            r@ == (CompletionRequestView {
                system_prompt: NEXT_STEP_PLANNING_PROMPT@,
                user_input: input@,
            }),
    {
        CompletionRequest {
            system_prompt: String::from_str(NEXT_STEP_PLANNING_PROMPT),
            user_input: String::from_str(input),
        }
    }

    /// The request that has the step with the input `input` resolved to a
    /// tool that fetches, searches or writes code, or answered.
    pub fn toolcall_request(&self, input: &str) -> (r: CompletionRequest)
        ensures
            r@ == (CompletionRequestView {
                system_prompt: FURTER_TASK_BY_TOOLCALL_PROMPT@,
                user_input: input@,
            }),
    {
        CompletionRequest {
            system_prompt: String::from_str(FURTER_TASK_BY_TOOLCALL_PROMPT),
            user_input: String::from_str(input),
        }
    }

    /// The request that has `input` dispatched to one of the four tools.
    pub fn dispatch_request(&self, input: &str) -> (r: CompletionRequest)
        ensures
            r@ == (CompletionRequestView {
                system_prompt: NEXT_STEP_BY_TOOLCALL_PROMPT@,
                user_input: input@,
            }),
    {
        CompletionRequest {
            system_prompt: String::from_str(NEXT_STEP_BY_TOOLCALL_PROMPT),
            user_input: String::from_str(input),
        }
    }

    /// The request that has `current_text_result` judged against
    /// `instruction`. Both are embedded as they are.
    pub fn termination_request(&self, current_text_result: &str, instruction: &str) -> (r:
        CompletionRequest)
        ensures
            r@ == (CompletionRequestView {
                system_prompt: IS_TERMINATION_PROMPT@,
                user_input: termination_question(instruction@, current_text_result@),
            }),
    {
        CompletionRequest {
            system_prompt: String::from_str(IS_TERMINATION_PROMPT),
            user_input: termination_question_text(instruction, current_text_result),
        }
    }

    /// What the reply to a [`toolcall_request`](Self::toolcall_request)
    /// resolves the step to: plain text answers it; an invocation of a tool
    /// that fetches, searches or writes code is to be carried out; every
    /// other invocation, and one without its argument, is an error.
    pub fn furter_task_by_toolcall(&self, reply: &NousContent) -> (r: Result<StepAction, ToolError>)
        ensures
            resolution_view(r) == resolved(reply@, false),
    {
        match reply {
            NousContent::Text(t) => Ok(StepAction::Answer(t.clone())),
            NousContent::NousToolCall(call) => match dispatch_among(call, false) {
                Ok(request) => Ok(StepAction::Call(request)),
                Err(error) => Err(error),
            },
        }
    }

    /// What the reply to a [`dispatch_request`](Self::dispatch_request)
    /// resolves the step to, among all four tools.
    pub fn next_step_by_toolcall(&self, reply: &NousContent) -> (r: Result<StepAction, ToolError>)
        ensures
            resolution_view(r) == resolved(reply@, true),
    {
        match reply {
            NousContent::Text(t) => Ok(StepAction::Answer(t.clone())),
            NousContent::NousToolCall(call) => match dispatch(call) {
                Ok(request) => Ok(StepAction::Call(request)),
                Err(error) => Err(error),
            },
        }
    }

    /// The steps that the reply to a
    /// [`planning_request`](Self::planning_request) lists, turned round for
    /// the stepper, which takes the last step first.
    pub fn next_step_planning(&self, reply: &NousContent) -> (r: Vec<String>)
        ensures
            r.deep_view() == planned(reply@),
    {
        match reply {
            NousContent::Text(text) => reversed(parse_planning_steps(text.as_str())),
            NousContent::NousToolCall(_) => {
                let none: Vec<String> = Vec::new();
                assert(none.deep_view() =~= Seq::<Seq<char>>::empty());
                none
            },
        }
    }

    /// Starts a run over the steps `task_vec`, of which the last is taken
    /// first. Without a step there is no run: the error is `NoTask`.
    pub fn stepper(&self, task_vec: &Vec<String>) -> (r: Result<Stepper, StepperError>)
        ensures
            match r {
                Ok(s) => started(task_vec.deep_view()) == Some(s@),
                Err(e) => started(task_vec.deep_view()) is None && e@ == StepperErrorView::NoTask,
            },
    {
        let mut pending = copy_strings(task_vec);
        let ghost before = pending.deep_view();
        match pending.pop() {
            Some(input) => {
                assert(pending.deep_view() =~= before.drop_last());
                assert(input@ == before.last());
                Ok(Stepper { pending, input, last_result: None })
            },
            None => Err(StepperError::NoTask),
        }
    }

    /// What the judge's reply says: whether the task is done, and the key
    /// points of the current result with a comma between each two. A reply
    /// that does not say degrades to `false` and no key points.
    pub fn _is_termination(&self, reply: &NousResponseMessage) -> (r: (bool, String))
        ensures
            (r.0, r.1@) == judged(reply_text(&reply.content)),
    {
        let text = reply.content_to_string();
        let (terminate_or_not, _, key_points) = parse_next_move_and_(text.as_str(), None);
        (terminate_or_not, join_text(&key_points, ","))
    }

    /// What the judge's reply says, with the next handler where the reply
    /// names one under the key `next_marker`.
    pub fn judge(&self, reply: &NousResponseMessage, next_marker: Option<&str>) -> (r:
        JudgmentResult)
        ensures
            (r.terminate, r.next_handler.deep_view(), r.key_points.deep_view()) == next_move(
                reply_text(&reply.content),
                TERMINATION_KEY@,
                match next_marker {
                    Some(m) => Some(m@),
                    None => None,
                },
            ),
    {
        let text = reply.content_to_string();
        let (terminate, next_handler, key_points) = parse_next_move_and_(
            text.as_str(),
            next_marker,
        );
        JudgmentResult { terminate, next_handler, key_points }
    }

    /// Starts the loop of code generation on the task `message_text`: the
    /// loop's first state, and the first request for code.
    pub fn code_with_python(&self, message_text: &str) -> (r: (CodeIterationState, CodeAction))
        ensures
            r.0@ == start_state(message_text@),
            r.1@ == CodeActionView::Generate(
                generate_request(iterate_coding_start(message_text@)),
            ),
    {
        CodeIterationState::start(message_text)
    }
}

} // verus!
