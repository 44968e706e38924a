//! The loop of code generation: ask for code, run it, have the result
//! judged, and ask again, at most [`MAX_ITER`] times.
//!
//! The loop is a state machine. Asking the completion service and running
//! the code are done by the caller: it hands each outcome to
//! [`CodeIterationState::step`] as a [`CodeEvent`] and is told what to do
//! next as a [`CodeAction`].

use crate::exec_python::{
    capture_of, extract_code, extracted_code, result_view, run_python_capture, SandboxOutcome,
};
use crate::immutable_agent::{
    judged, reply_text, CompletionRequest, CompletionRequestView, ImmutableAgent,
};
use crate::nous_structs::{NousContent, NousResponseMessage};
use crate::prompts::{
    iterate_coding_fail, iterate_coding_fail_template, iterate_coding_incorrect,
    iterate_coding_incorrect_template, iterate_coding_start, iterate_coding_start_template,
    termination_question, termination_question_text, CODE_PYTHON_PROMPT, IS_TERMINATION_PROMPT,
};
use vstd::prelude::*;

verus! {

/// The most rounds of code generation that one task may take.
pub const MAX_ITER: u8 = 8;

/// How the latest round ended.
#[derive(Clone, Copy, Debug, PartialEq, Eq, Structural)]
pub enum Verdict {
    /// The code ran and the judge accepted its result.
    Success,
    /// The code ran and the judge did not accept its result.
    Incorrect,
    /// The code did not run to its end. Also the verdict before the first
    /// round has ended.
    Failed,
}

/// What the loop is waiting for.
#[derive(Clone, Copy, Debug, PartialEq, Eq, Structural)]
pub enum CodePhase {
    /// The completion service's code: at the start, and when a round is
    /// tried again.
    AwaitingCode,
    /// The sandbox's report on the code that was extracted.
    AwaitingRun,
    /// The judge's reply on a run that succeeded.
    AwaitingJudgment,
    /// Nothing: the rounds are used up.
    Exhausted,
}

/// The state of the loop.
#[derive(Debug)]
pub struct CodeIterationState {
    iteration: u8,
    code: String,
    execution_result: String,
    verdict: Verdict,
    phase: CodePhase,
    task: String,
    prompt: String,
}

/// The mathematical value of a [`CodeIterationState`].
pub struct CodeStateView {
    /// The round, counted from 1.
    pub iteration: int,
    /// The code of the latest reply.
    pub code: Seq<char>,
    /// What running it gave: its output or its error.
    pub execution_result: Seq<char>,
    pub verdict: Verdict,
    pub phase: CodePhase,
    /// The first message, which states the task.
    pub task: Seq<char>,
    /// The message of the current round.
    pub prompt: Seq<char>,
}

/// What happened outside the loop.
#[derive(Debug)]
pub enum CodeEvent {
    /// The completion service replied; this is the code in its reply.
    Generated { code: String },
    /// The sandbox ran the code: its output, or its error.
    Ran { outcome: Result<String, String> },
    /// The judge replied: whether the task is done.
    Judged { terminate: bool },
}

/// The mathematical value of a [`CodeEvent`].
pub enum CodeEventView {
    Generated { code: Seq<char> },
    Ran { outcome: Result<Seq<char>, Seq<char>> },
    Judged { terminate: bool },
}

impl View for CodeEvent {
    type V = CodeEventView;

    open spec fn view(&self) -> CodeEventView {
        match self {
            CodeEvent::Generated { code } => CodeEventView::Generated { code: code@ },
            CodeEvent::Ran { outcome } => CodeEventView::Ran { outcome: result_view(*outcome) },
            CodeEvent::Judged { terminate } => CodeEventView::Judged { terminate: *terminate },
        }
    }
}

/// What the caller is to do next.
#[derive(Debug)]
pub enum CodeAction {
    /// Ask the completion service for code.
    Generate(CompletionRequest),
    /// Run this code in the sandbox.
    Execute { code: String },
    /// Ask the judge whether the result does the task.
    Judge(CompletionRequest),
    /// Stop: the rounds are used up. The code and the result are those of
    /// the last round.
    Finish { success: bool, final_code: String, final_result: String },
    /// Nothing new: the event was not the one awaited.
    Pending,
}

/// The mathematical value of a [`CodeAction`].
pub enum CodeActionView {
    Generate(CompletionRequestView),
    Execute { code: Seq<char> },
    Judge(CompletionRequestView),
    Finish { success: bool, final_code: Seq<char>, final_result: Seq<char> },
    Pending,
}

impl View for CodeAction {
    type V = CodeActionView;

    open spec fn view(&self) -> CodeActionView {
        match self {
            CodeAction::Generate(r) => CodeActionView::Generate(r@),
            CodeAction::Execute { code } => CodeActionView::Execute { code: code@ },
            CodeAction::Judge(r) => CodeActionView::Judge(r@),
            CodeAction::Finish { success, final_code, final_result } => CodeActionView::Finish {
                success: *success,
                final_code: final_code@,
                final_result: final_result@,
            },
            CodeAction::Pending => CodeActionView::Pending,
        }
    }
}

/// The request for code with the message `prompt`.
pub open spec fn generate_request(prompt: Seq<char>) -> CompletionRequestView {
    CompletionRequestView { system_prompt: CODE_PYTHON_PROMPT@, user_input: prompt }
}

/// The request to judge `result` against the task stated in `task`.
pub open spec fn judge_request(task: Seq<char>, result: Seq<char>) -> CompletionRequestView {
    CompletionRequestView {
        system_prompt: IS_TERMINATION_PROMPT@,
        user_input: termination_question(task, result),
    }
}

/// The state in which the loop starts on `task`, before any reply.
pub open spec fn start_state(task: Seq<char>) -> CodeStateView {
    CodeStateView {
        iteration: 1,
        code: Seq::empty(),
        execution_result: Seq::empty(),
        verdict: Verdict::Failed,
        phase: CodePhase::AwaitingCode,
        task: iterate_coding_start(task),
        prompt: iterate_coding_start(task),
    }
}

/// The message of the round after one that ended as `s` tells: the code and
/// its error where the run failed, the code and its result where it did not.
pub open spec fn next_prompt(s: CodeStateView) -> Seq<char> {
    if s.verdict == Verdict::Failed {
        iterate_coding_fail(s.code, s.execution_result)
    } else {
        iterate_coding_incorrect(s.code, s.execution_result)
    }
}

/// What follows a round that has ended: the next round while rounds are
/// left, else the end of the loop.
pub open spec fn settled(s: CodeStateView) -> (CodeStateView, CodeActionView) {
    if s.iteration < MAX_ITER {
        (
            CodeStateView {
                iteration: s.iteration + 1,
                phase: CodePhase::AwaitingCode,
                prompt: next_prompt(s),
                ..s
            },
            CodeActionView::Generate(generate_request(next_prompt(s))),
        )
    } else {
        (
            CodeStateView { phase: CodePhase::Exhausted, ..s },
            CodeActionView::Finish {
                success: false,
                final_code: s.code,
                final_result: s.execution_result,
            },
        )
    }
}

/// The state and the action that follow the state `s` on the event `e`.
pub open spec fn stepped(s: CodeStateView, e: CodeEventView) -> (CodeStateView, CodeActionView) {
    match (s.phase, e) {
        (CodePhase::AwaitingCode, CodeEventView::Generated { code }) => (
            CodeStateView { code, phase: CodePhase::AwaitingRun, ..s },
            CodeActionView::Execute { code },
        ),
        (CodePhase::AwaitingRun, CodeEventView::Ran { outcome: Ok(output) }) => (
            CodeStateView { execution_result: output, phase: CodePhase::AwaitingJudgment, ..s },
            CodeActionView::Judge(judge_request(s.task, output)),
        ),
        (CodePhase::AwaitingRun, CodeEventView::Ran { outcome: Err(error) }) => settled(
            CodeStateView { execution_result: error, verdict: Verdict::Failed, ..s },
        ),
        (CodePhase::AwaitingJudgment, CodeEventView::Judged { terminate }) => settled(
            CodeStateView {
                verdict: if terminate {
                    Verdict::Success
                } else {
                    Verdict::Incorrect
                },
                ..s
            },
        ),
        _ => (s, CodeActionView::Pending),
    }
}

/// How many requests for code the events `events` bring about from the
/// state `s` on.
pub open spec fn generations(s: CodeStateView, events: Seq<CodeEventView>) -> nat
    decreases events.len(),
{
    if events.len() == 0 {
        0
    } else {
        let (next, action) = stepped(s, events[0]);
        (if action is Generate {
            1nat
        } else {
            0nat
        }) + generations(next, events.subrange(1, events.len() as int))
    }
}

impl View for CodeIterationState {
    type V = CodeStateView;

    closed spec fn view(&self) -> CodeStateView {
        CodeStateView {
            iteration: self.iteration as int,
            code: self.code@,
            execution_result: self.execution_result@,
            verdict: self.verdict,
            phase: self.phase,
            task: self.task@,
            prompt: self.prompt@,
        }
    }
}

impl CodeIterationState {
    #[verifier::type_invariant]
    closed spec fn round_in_bounds(&self) -> bool {
        1 <= self.iteration <= MAX_ITER
    }

    /// The state in which the loop starts on the task `task`, and the first
    /// request for code.
    pub fn start(task: &str) -> (r: (CodeIterationState, CodeAction))
        ensures
            r.0@ == start_state(task@),
            r.1@ == CodeActionView::Generate(generate_request(iterate_coding_start(task@))),
    {
        let prompt = iterate_coding_start_template(task);
        let state = CodeIterationState {
            iteration: 1,
            code: String::new(),
            execution_result: String::new(),
            verdict: Verdict::Failed,
            phase: CodePhase::AwaitingCode,
            task: prompt.clone(),
            prompt: prompt.clone(),
        };
        let action = CodeAction::Generate(
            CompletionRequest {
                system_prompt: String::from_str(CODE_PYTHON_PROMPT),
                user_input: prompt,
            },
        );
        (state, action)
    }

    /// The round, from 1 to [`MAX_ITER`].
    pub fn iteration(&self) -> (r: u8)
        ensures
            r == self@.iteration,
            1 <= r <= MAX_ITER,
    {
        proof {
            use_type_invariant(self);
        }
        self.iteration
    }

    /// The code of the latest reply.
    pub fn code(&self) -> (r: &String)
        ensures
            r@ == self@.code,
    {
        &self.code
    }

    /// What running the code gave: its output or its error.
    pub fn execution_result(&self) -> (r: &String)
        ensures
            r@ == self@.execution_result,
    {
        &self.execution_result
    }

    /// How the latest round ended.
    pub fn verdict(&self) -> (r: Verdict)
        ensures
            r == self@.verdict,
    {
        self.verdict
    }

    /// What the loop is waiting for.
    pub fn phase(&self) -> (r: CodePhase)
        ensures
            r == self@.phase,
    {
        self.phase
    }

    /// The message of the current round.
    pub fn prompt(&self) -> (r: &String)
        ensures
            r@ == self@.prompt,
    {
        &self.prompt
    }

    /// What follows a round that has ended.
    fn settle(self) -> (r: (CodeIterationState, CodeAction))
        ensures
            (r.0@, r.1@) == settled(self@),
    {
        proof {
            use_type_invariant(&self);
        }
        if self.iteration < MAX_ITER {
            let prompt = match self.verdict {
                Verdict::Failed => iterate_coding_fail_template(
                    self.code.as_str(),
                    self.execution_result.as_str(),
                ),
                _ => iterate_coding_incorrect_template(
                    self.code.as_str(),
                    self.execution_result.as_str(),
                ),
            };
            let action = CodeAction::Generate(
                CompletionRequest {
                    system_prompt: String::from_str(CODE_PYTHON_PROMPT),
                    user_input: prompt.clone(),
                },
            );
            let state = CodeIterationState {
                iteration: self.iteration + 1,
                code: self.code,
                execution_result: self.execution_result,
                verdict: self.verdict,
                phase: CodePhase::AwaitingCode,
                task: self.task,
                prompt,
            };
            (state, action)
        } else {
            let action = CodeAction::Finish {
                success: false,
                final_code: self.code.clone(),
                final_result: self.execution_result.clone(),
            };
            let state = CodeIterationState {
                iteration: self.iteration,
                code: self.code,
                execution_result: self.execution_result,
                verdict: self.verdict,
                phase: CodePhase::Exhausted,
                task: self.task,
                prompt: self.prompt,
            };
            (state, action)
        }
    }

    /// Takes the event `event` and says what to do next.
    ///
    /// Code that arrives is to be run. A run that succeeds is to be judged;
    /// one that fails ends the round. The judge's reply ends the round too,
    /// whatever it says. After a round the next one begins, with a message
    /// that shows the code and what it gave, unless the round was the last
    /// of [`MAX_ITER`]: then the loop finishes, and reports no success. An
    /// event that is not awaited changes nothing.
    pub fn step(self, event: CodeEvent) -> (r: (CodeIterationState, CodeAction))
        ensures
            (r.0@, r.1@) == stepped(self@, event@),
            r.1@ is Generate ==> r.0@.iteration == self@.iteration + 1,
            !(r.1@ is Generate) ==> r.0@.iteration == self@.iteration,
    {
        proof {
            use_type_invariant(&self);
        }
        match (self.phase, event) {
            (CodePhase::AwaitingCode, CodeEvent::Generated { code }) => {
                let action = CodeAction::Execute { code: code.clone() };
                let state = CodeIterationState {
                    iteration: self.iteration,
                    code,
                    execution_result: self.execution_result,
                    verdict: self.verdict,
                    phase: CodePhase::AwaitingRun,
                    task: self.task,
                    prompt: self.prompt,
                };
                (state, action)
            },
            (CodePhase::AwaitingRun, CodeEvent::Ran { outcome: Ok(output) }) => {
                let action = CodeAction::Judge(
                    CompletionRequest {
                        system_prompt: String::from_str(IS_TERMINATION_PROMPT),
                        user_input: termination_question_text(
                            self.task.as_str(),
                            output.as_str(),
                        ),
                    },
                );
                let state = CodeIterationState {
                    iteration: self.iteration,
                    code: self.code,
                    execution_result: output,
                    verdict: self.verdict,
                    phase: CodePhase::AwaitingJudgment,
                    task: self.task,
                    prompt: self.prompt,
                };
                (state, action)
            },
            (CodePhase::AwaitingRun, CodeEvent::Ran { outcome: Err(error) }) => {
                let state = CodeIterationState {
                    iteration: self.iteration,
                    code: self.code,
                    execution_result: error,
                    verdict: Verdict::Failed,
                    phase: self.phase,
                    task: self.task,
                    prompt: self.prompt,
                };
                state.settle()
            },
            (CodePhase::AwaitingJudgment, CodeEvent::Judged { terminate }) => {
                let state = CodeIterationState {
                    iteration: self.iteration,
                    code: self.code,
                    execution_result: self.execution_result,
                    verdict: if terminate {
                        Verdict::Success
                    } else {
                        Verdict::Incorrect
                    },
                    phase: self.phase,
                    task: self.task,
                    prompt: self.prompt,
                };
                state.settle()
            },
            _ => (self, CodeAction::Pending),
        }
    }
}

/// The event that the completion service's reply to a request for code is:
/// the code in the reply.
pub fn code_event(reply: &NousContent) -> (r: CodeEvent)
    ensures
        r@ == (CodeEventView::Generated { code: extracted_code(reply_text(reply)) }),
{
    let text = reply.render();
    CodeEvent::Generated { code: extract_code(text.as_str()) }
}

/// The event that the sandbox's report is: the output, or the error in
/// words.
pub fn run_event(outcome: SandboxOutcome) -> (r: CodeEvent)
    ensures
        r@ == (CodeEventView::Ran { outcome: capture_of(outcome@) }),
{
    CodeEvent::Ran { outcome: run_python_capture(outcome) }
}

/// The event that the judge's reply is: whether it says that the task is
/// done.
pub fn judgment_event(agent: &ImmutableAgent, reply: &NousResponseMessage) -> (r: CodeEvent)
    ensures
        r@ == (CodeEventView::Judged { terminate: judged(reply_text(&reply.content)).0 }),
{
    let (terminate, _) = agent._is_termination(reply);
    CodeEvent::Judged { terminate }
}

/// From a state in round `i` on, at most `MAX_ITER - i` requests for code
/// follow, whatever happens.
pub proof fn lemma_generations_bounded(s: CodeStateView, events: Seq<CodeEventView>)
    requires
        1 <= s.iteration <= MAX_ITER,
    ensures
        generations(s, events) <= MAX_ITER - s.iteration,
    decreases events.len(),
{
    if events.len() > 0 {
        let (next, action) = stepped(s, events[0]);
        lemma_generations_bounded(next, events.subrange(1, events.len() as int));
    }
}

} // verus!
