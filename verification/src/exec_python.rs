//! Generated code: finding it in a reply, wrapping it for the sandbox, and
//! reading what the sandbox reports.
//!
//! The sandbox itself is not here. It takes a script and reports a
//! [`SandboxOutcome`]; this module writes the script and says what each
//! outcome means.

use crate::pattern::{all_matches, regex_matches_of};
use crate::text::{strip_text, trim, Strip};
use vstd::prelude::*;

verus! {

/// A fenced block marked `python`, its contents as group 1, across lines.
pub const CODE_PATTERN: &'static str = r"(?s)```python(.*?)```";

/// A fenced block of one line: the language, if any, as group 1 and the line
/// as group 2.
pub const MULTI_LINE_PATTERN: &'static str = r"```[ \t]*(\w+)?[ \t]*\r?\n(.*?)\r?\n[ \t]*```";

/// Code between single backquotes, as group 1.
pub const SINGLE_LINE_PATTERN: &'static str = r"`([^`]+)`";

/// What is put before generated code so that what it prints is captured.
pub const CAPTURE_HEAD: &'static str =
    "import io\nimport sys\noutput = io.StringIO()\nsys.stdout = output\n";

/// What is put after generated code to keep what it printed.
pub const CAPTURE_TAIL: &'static str = "\ncaptured_output = output.getvalue()";

/// The name under which the script that is run is known to the sandbox.
pub const SCRIPT_NAME: &'static str = "<embedded>";

/// The variable in which the script leaves what was printed.
pub const CAPTURE_VARIABLE: &'static str = "captured_output";

/// Group `i` of one match; `None` where the match has no such group or the
/// group took no part.
pub open spec fn group(found: Seq<Option<Seq<char>>>, i: int) -> Option<Seq<char>> {
    if 0 <= i < found.len() {
        found[i]
    } else {
        None
    }
}

/// The text of a group without surrounding whitespace; empty where the group
/// is `None`.
pub open spec fn trimmed_group(found: Seq<Option<Seq<char>>>, i: int) -> Seq<char> {
    match group(found, i) {
        Some(text) => trim(text),
        None => Seq::empty(),
    }
}

/// The code in a list of matches of [`CODE_PATTERN`]: the contents of every
/// block, each without surrounding whitespace, one directly after the other.
pub open spec fn code_of(found: Seq<Seq<Option<Seq<char>>>>) -> Seq<char>
    decreases found.len(),
{
    if found.len() == 0 {
        Seq::empty()
    } else {
        code_of(found.drop_last()) + trimmed_group(found.last(), 1)
    }
}

/// The program in `text`: the code of all its blocks marked `python`.
pub open spec fn extracted_code(text: Seq<char>) -> Seq<char> {
    code_of(regex_matches_of(CODE_PATTERN@, text))
}

/// One fenced block: its language, where it names one, and its code.
pub open spec fn fenced_block(found: Seq<Option<Seq<char>>>) -> (Option<Seq<char>>, Seq<char>) {
    (
        match group(found, 1) {
            Some(language) => Some(trim(language)),
            None => None,
        },
        trimmed_group(found, 2),
    )
}

/// One piece of code between single backquotes.
pub open spec fn inline_block(found: Seq<Option<Seq<char>>>) -> (Option<Seq<char>>, Seq<char>) {
    (None, trimmed_group(found, 1))
}

/// The blocks in `fenced`, then, where `inline` is given, those in it.
pub open spec fn blocks_of(
    fenced: Seq<Seq<Option<Seq<char>>>>,
    inline: Option<Seq<Seq<Option<Seq<char>>>>>,
) -> Seq<(Option<Seq<char>>, Seq<char>)> {
    fenced.map_values(|found: Seq<Option<Seq<char>>>| fenced_block(found)) + match inline {
        Some(found) => found.map_values(|one: Seq<Option<Seq<char>>>| inline_block(one)),
        None => Seq::empty(),
    }
}

/// The code blocks of `text`: the fenced blocks in order and, where
/// `detect_single_line_code` holds, after them the code between single
/// backquotes.
pub open spec fn code_blocks(text: Seq<char>, detect_single_line_code: bool) -> Seq<
    (Option<Seq<char>>, Seq<char>),
> {
    blocks_of(
        regex_matches_of(MULTI_LINE_PATTERN@, text),
        if detect_single_line_code {
            Some(regex_matches_of(SINGLE_LINE_PATTERN@, text))
        } else {
            None
        },
    )
}

/// The script that runs `code` and keeps what it prints.
pub open spec fn capture_script_of(code: Seq<char>) -> Seq<char> {
    CAPTURE_HEAD@ + code + CAPTURE_TAIL@
}

/// What the sandbox reports of the first argument of an error that a script
/// raised.
#[derive(Debug)]
pub enum RaisedWith {
    /// The argument is this text.
    Message(String),
    /// The argument is no text.
    NotText,
    /// The error has no argument.
    Nothing,
}

/// What the sandbox reports of one script.
#[derive(Debug)]
pub enum SandboxOutcome {
    /// The script did not compile, for this reason.
    NotCompiled(String),
    /// The script ran and left this text in [`CAPTURE_VARIABLE`].
    Captured(String),
    /// The script ran and left something else than text there.
    CapturedNoText,
    /// The script ran and left nothing there.
    NothingCaptured,
    /// The script raised an error.
    Raised(RaisedWith),
}

/// The mathematical value of a [`SandboxOutcome`].
pub enum SandboxOutcomeView {
    NotCompiled(Seq<char>),
    Captured(Seq<char>),
    CapturedNoText,
    NothingCaptured,
    RaisedMessage(Seq<char>),
    RaisedNotText,
    RaisedNothing,
}

impl View for SandboxOutcome {
    type V = SandboxOutcomeView;

    open spec fn view(&self) -> SandboxOutcomeView {
        match self {
            SandboxOutcome::NotCompiled(e) => SandboxOutcomeView::NotCompiled(e@),
            SandboxOutcome::Captured(s) => SandboxOutcomeView::Captured(s@),
            SandboxOutcome::CapturedNoText => SandboxOutcomeView::CapturedNoText,
            SandboxOutcome::NothingCaptured => SandboxOutcomeView::NothingCaptured,
            SandboxOutcome::Raised(RaisedWith::Message(m)) => SandboxOutcomeView::RaisedMessage(
                m@,
            ),
            SandboxOutcome::Raised(RaisedWith::NotText) => SandboxOutcomeView::RaisedNotText,
            SandboxOutcome::Raised(RaisedWith::Nothing) => SandboxOutcomeView::RaisedNothing,
        }
    }
}

/// What an outcome means for the caller: the captured output, or the
/// description of what went wrong.
pub open spec fn capture_of(outcome: SandboxOutcomeView) -> Result<Seq<char>, Seq<char>> {
    match outcome {
        SandboxOutcomeView::NotCompiled(e) => Err("Compilation error: "@ + e),
        SandboxOutcomeView::Captured(s) => Ok(s),
        SandboxOutcomeView::CapturedNoText => Err("res is not a string"@),
        SandboxOutcomeView::NothingCaptured => Err("error getting captured_output"@),
        SandboxOutcomeView::RaisedMessage(m) => Err("Code execution error message: "@ + m),
        SandboxOutcomeView::RaisedNotText => Err(
            "Code execution error message: "@ + "Unknown error"@,
        ),
        SandboxOutcomeView::RaisedNothing => Err(
            "Code execution error message: "@ + "No error message available"@,
        ),
    }
}

/// The view of a result of two strings.
pub open spec fn result_view(r: Result<String, String>) -> Result<Seq<char>, Seq<char>> {
    match r {
        Ok(s) => Ok(s@),
        Err(e) => Err(e@),
    }
}

/// What one round comes to: whether the run succeeded, the code, and the
/// output or the error.
pub open spec fn round_of(code: Seq<char>, outcome: Result<Seq<char>, Seq<char>>) -> (
    bool,
    Seq<char>,
    Seq<char>,
) {
    match outcome {
        Ok(output) => (true, code, output),
        Err(error) => (false, code, error),
    }
}

/// The code in a list of matches of [`CODE_PATTERN`].
pub fn code_from_matches(found: &Vec<Vec<Option<String>>>) -> (r: String)
    ensures
        r@ == code_of(found.deep_view()),
{
    let mut program = String::new();
    let mut i: usize = 0;
    assert(found.deep_view().take(0) =~= Seq::<Seq<Option<Seq<char>>>>::empty());
    while i < found.len()
        invariant
            i <= found.len(),
            program@ == code_of(found.deep_view().take(i as int)),
        decreases found.len() - i,
    {
        proof {
            let next = found.deep_view().take(i + 1);
            assert(next.drop_last() =~= found.deep_view().take(i as int));
            assert(next.last() == found.deep_view()[i as int]);
        }
        let code = trimmed_group_text(&found[i], 1);
        program.append(code.as_str());
        i = i + 1;
    }
    assert(found.deep_view().take(found.len() as int) =~= found.deep_view());
    program
}

/// The text of group `i` of one match, without surrounding whitespace.
pub fn trimmed_group_text(found: &Vec<Option<String>>, i: usize) -> (r: String)
    ensures
        r@ == trimmed_group(found.deep_view(), i as int),
{
    if i < found.len() {
        match &found[i] {
            Some(text) => strip_text(text.as_str(), Strip::Whitespace),
            None => String::new(),
        }
    } else {
        String::new()
    }
}

/// The program in `text`: the contents of all its blocks marked `python`, in
/// order, each without surrounding whitespace. Empty where there is no such
/// block.
pub fn extract_code(text: &str) -> (r: String)
    ensures
        r@ == extracted_code(text@),
{
    let found = all_matches(CODE_PATTERN, text);
    code_from_matches(&found)
}

/// The blocks in the matches `fenced` of [`MULTI_LINE_PATTERN`], then, where
/// given, those in the matches `inline` of [`SINGLE_LINE_PATTERN`].
pub fn blocks_from_matches(
    fenced: &Vec<Vec<Option<String>>>,
    inline: Option<&Vec<Vec<Option<String>>>>,
) -> (r: Vec<(Option<String>, String)>)
    ensures
        r.deep_view() == blocks_of(
            fenced.deep_view(),
            match inline {
                Some(found) => Some(found.deep_view()),
                None => None,
            },
        ),
{
    let mut results: Vec<(Option<String>, String)> = Vec::new();
    let ghost fenced_blocks = fenced.deep_view().map_values(
        |found: Seq<Option<Seq<char>>>| fenced_block(found),
    );
    let mut i: usize = 0;
    assert(results.deep_view() =~= fenced_blocks.take(0));
    while i < fenced.len()
        invariant
            i <= fenced.len(),
            fenced_blocks == fenced.deep_view().map_values(
                |found: Seq<Option<Seq<char>>>| fenced_block(found),
            ),
            results.deep_view() == fenced_blocks.take(i as int),
        decreases fenced.len() - i,
    {
        let language = if 1 < fenced[i].len() {
            match &fenced[i][1] {
                Some(text) => Some(strip_text(text.as_str(), Strip::Whitespace)),
                None => None,
            }
        } else {
            None
        };
        let code = trimmed_group_text(&fenced[i], 2);
        let ghost before = results.deep_view();
        results.push((language, code));
        assert(results.deep_view() =~= before.push((language.deep_view(), code@)));
        assert(fenced_blocks.take(i + 1) =~= fenced_blocks.take(i as int).push(
            fenced_block(fenced.deep_view()[i as int]),
        ));
        i = i + 1;
    }
    assert(fenced_blocks.take(fenced.len() as int) =~= fenced_blocks);
    match inline {
        Some(found) => {
            let ghost inline_blocks = found.deep_view().map_values(
                |one: Seq<Option<Seq<char>>>| inline_block(one),
            );
            let mut j: usize = 0;
            assert(results.deep_view() =~= fenced_blocks + inline_blocks.take(0));
            while j < found.len()
                invariant
                    j <= found.len(),
                    inline_blocks == found.deep_view().map_values(
                        |one: Seq<Option<Seq<char>>>| inline_block(one),
                    ),
                    results.deep_view() == fenced_blocks + inline_blocks.take(j as int),
                decreases found.len() - j,
            {
                let code = trimmed_group_text(&found[j], 1);
                let ghost before = results.deep_view();
                results.push((None, code));
                assert(results.deep_view() =~= before.push((None, code@)));
                assert(inline_blocks.take(j + 1) =~= inline_blocks.take(j as int).push(
                    inline_block(found.deep_view()[j as int]),
                ));
                assert(fenced_blocks + inline_blocks.take(j + 1) =~= (fenced_blocks
                    + inline_blocks.take(j as int)).push(
                    inline_block(found.deep_view()[j as int]),
                ));
                j = j + 1;
            }
            assert(inline_blocks.take(found.len() as int) =~= inline_blocks);
        },
        None => {
            assert(results.deep_view() =~= fenced_blocks + Seq::<
                (Option<Seq<char>>, Seq<char>),
            >::empty());
        },
    }
    results
}

/// The code blocks of `text`, each with its language where it names one:
/// the fenced blocks in order and, where `detect_single_line_code` holds,
/// after them the code between single backquotes.
pub fn extract_code_blocks(text: &str, detect_single_line_code: bool) -> (r: Vec<
    (Option<String>, String),
>)
    ensures
        r.deep_view() == code_blocks(text@, detect_single_line_code),
{
    let fenced = all_matches(MULTI_LINE_PATTERN, text);
    if detect_single_line_code {
        let inline = all_matches(SINGLE_LINE_PATTERN, text);
        blocks_from_matches(&fenced, Some(&inline))
    } else {
        blocks_from_matches(&fenced, None)
    }
}

/// The script that the sandbox is to run for `code`: it sends what `code`
/// prints to a buffer and leaves the buffer's text in [`CAPTURE_VARIABLE`].
pub fn capture_script(code: &str) -> (r: String)
    ensures
        r@ == capture_script_of(code@),
{
    let mut out = String::from_str(CAPTURE_HEAD);
    out.append(code);
    out.append(CAPTURE_TAIL);
    out
}

/// What the sandbox's report of a script means: `Ok` with the captured
/// output exactly when the script ran and left text, else `Err` with what
/// went wrong, in words.
pub fn run_python_capture(outcome: SandboxOutcome) -> (r: Result<String, String>)
    ensures
        result_view(r) == capture_of(outcome@),
{
    match outcome {
        SandboxOutcome::NotCompiled(e) => {
            let mut out = String::from_str("Compilation error: ");
            out.append(e.as_str());
            Err(out)
        },
        SandboxOutcome::Captured(s) => Ok(s),
        SandboxOutcome::CapturedNoText => Err(String::from_str("res is not a string")),
        SandboxOutcome::NothingCaptured => Err(String::from_str("error getting captured_output")),
        SandboxOutcome::Raised(with) => {
            let mut out = String::from_str("Code execution error message: ");
            match with {
                RaisedWith::Message(m) => {
                    out.append(m.as_str());
                },
                RaisedWith::NotText => {
                    out.append("Unknown error");
                },
                RaisedWith::Nothing => {
                    out.append("No error message available");
                },
            }
            Err(out)
        },
    }
}

/// What one round comes to, given the code that was run and what running it
/// gave: whether the run succeeded, the code, and the output or the error.
pub fn run_python_wrapper(code: String, outcome: Result<String, String>) -> (r: (
    bool,
    String,
    String,
))
    ensures
        (r.0, r.1@, r.2@) == round_of(code@, result_view(outcome)),
{
    match outcome {
        Ok(success_result_text) => (true, code, success_result_text),
        Err(err_msg) => (false, code, err_msg),
    }
}

} // verus!
