//! Pulling named fields out of a reply that is nearly, but perhaps not
//! quite, JSON.
//!
//! Nothing here fails: a piece that is missing comes out as `false`, `None`
//! or an empty list.

use crate::json::{json_string_array_of, string_array};
use crate::pattern::{first_capture, regex_capture_of};
use crate::text::{chars_of, same_text, split, split_text, string_of, strip_bounds, trim, trim_matches, Strip};
use vstd::prelude::*;

verus! {

/// The first `{` up to the first `}` after it: one object without an object
/// inside.
pub const OBJECT_PATTERN: &'static str = r"\{[^}]*\}";

/// What precedes the key in the pattern of a string field.
pub const FIELD_PATTERN_HEAD: &'static str = "\"";

/// What follows the key in the pattern of a string field: the colon,
/// whitespace, and the value between double quotes as group 1.
pub const FIELD_PATTERN_TAIL: &'static str = r#"":\s*"([^"]*)""#;

/// The list `key_points`, what stands between its brackets as group 1.
pub const KEY_POINTS_PATTERN: &'static str = r#""key_points":\s*\[(.*?)\]"#;

/// The list `steps_to_take`, brackets and all, as group 1.
pub const STEPS_PATTERN: &'static str = r#""steps_to_take":\s*(\[[^\]]*\])"#;

/// The key of the field that says whether the task is done.
pub const TERMINATION_KEY: &'static str = "continue_or_terminate";

/// The value of that field that says that it is.
pub const TERMINATE: &'static str = "TERMINATE";

/// The pattern that finds the string field `key`.
pub open spec fn field_pattern(key: Seq<char>) -> Seq<char> {
    FIELD_PATTERN_HEAD@ + key + FIELD_PATTERN_TAIL@
}

/// The first single-level object in `input`; empty where there is none.
pub open spec fn object_span(input: Seq<char>) -> Seq<char> {
    match regex_capture_of(OBJECT_PATTERN@, input, 0) {
        Some(span) => span,
        None => Seq::empty(),
    }
}

/// The value of the string field `key` in `span`, where it has one.
pub open spec fn string_field(span: Seq<char>, key: Seq<char>) -> Option<Seq<char>> {
    regex_capture_of(field_pattern(key), span, 1)
}

/// What stands between the brackets of the list `key_points` in `span`,
/// where it has that list.
pub open spec fn key_points_field(span: Seq<char>) -> Option<Seq<char>> {
    regex_capture_of(KEY_POINTS_PATTERN@, span, 1)
}

/// One key point: a piece of the list without surrounding whitespace and
/// then without the double quotes at its ends.
pub open spec fn key_point(piece: Seq<char>) -> Seq<char> {
    trim_matches(trim(piece), '"')
}

/// The key points in the raw contents `raw` of the list: none where the list
/// is missing or empty, else one for each piece between commas.
pub open spec fn key_points_of(raw: Option<Seq<char>>) -> Seq<Seq<char>> {
    match raw {
        Some(text) => if text.len() == 0 {
            Seq::empty()
        } else {
            split(text, ',').map_values(|piece: Seq<char>| key_point(piece))
        },
        None => Seq::empty(),
    }
}

/// What the three fields found in a reply come to: whether to terminate, the
/// next handler, the key points.
pub open spec fn next_move_of(
    verdict: Option<Seq<char>>,
    next: Option<Seq<char>>,
    key_points_raw: Option<Seq<char>>,
) -> (bool, Option<Seq<char>>, Seq<Seq<char>>) {
    (verdict == Some(TERMINATE@), next, key_points_of(key_points_raw))
}

/// What [`parse_next_move_with`] returns for `input`.
pub open spec fn next_move(
    input: Seq<char>,
    termination_key: Seq<char>,
    next_marker: Option<Seq<char>>,
) -> (bool, Option<Seq<char>>, Seq<Seq<char>>) {
    let span = object_span(input);
    next_move_of(
        string_field(span, termination_key),
        match next_marker {
            Some(marker) => string_field(span, marker),
            None => None,
        },
        key_points_field(span),
    )
}

/// The steps in the list `steps_to_take` of `input`: empty where the list is
/// missing or is no JSON list of strings.
pub open spec fn planning_steps(input: Seq<char>) -> Seq<Seq<char>> {
    match planning_steps_checked(input) {
        Ok(steps) => steps,
        Err(_) => Seq::empty(),
    }
}

/// The steps in the list `steps_to_take` of `input`, or why there are none.
pub open spec fn planning_steps_checked(input: Seq<char>) -> Result<Seq<Seq<char>>, PlanningError> {
    match regex_capture_of(STEPS_PATTERN@, input, 1) {
        Some(list) => steps_of(json_string_array_of(list)),
        None => Err(PlanningError::MissingSteps),
    }
}

/// The steps, given what the text of the list was read as.
pub open spec fn steps_of(parsed: Option<Seq<Seq<char>>>) -> Result<Seq<Seq<char>>, PlanningError> {
    match parsed {
        Some(steps) => Ok(steps),
        None => Err(PlanningError::InvalidSteps),
    }
}

/// Why a reply gave no steps.
#[derive(Clone, Copy, Debug, PartialEq, Eq, Structural)]
pub enum PlanningError {
    /// The reply has no list `steps_to_take`.
    MissingSteps,
    /// The list is not a JSON list of strings.
    InvalidSteps,
}

impl PlanningError {
    /// The diagnostic to log.
    pub fn message(&self) -> (r: String)
        ensures
            r@ == match self {
                PlanningError::MissingSteps => "Failed to extract 'steps_to_take' from input."@,
                PlanningError::InvalidSteps => "Failed to parse extracted 'steps_to_take' as JSON."@,
            },
    {
        match self {
            PlanningError::MissingSteps => String::from_str(
                "Failed to extract 'steps_to_take' from input.",
            ),
            PlanningError::InvalidSteps => String::from_str(
                "Failed to parse extracted 'steps_to_take' as JSON.",
            ),
        }
    }
}

/// The text of the pattern that finds the string field `key`.
pub fn field_pattern_text(key: &str) -> (r: String)
    ensures
        r@ == field_pattern(key@),
{
    let mut out = String::from_str(FIELD_PATTERN_HEAD);
    out.append(key);
    out.append(FIELD_PATTERN_TAIL);
    out
}

/// The key points in the raw contents of the list `key_points`.
pub fn key_points_from(raw: Option<String>) -> (r: Vec<String>)
    ensures
        r.deep_view() == key_points_of(raw.deep_view()),
{
    let mut out: Vec<String> = Vec::new();
    let text = match raw {
        Some(text) => text,
        None => {
            assert(out.deep_view() =~= Seq::<Seq<char>>::empty());
            return out;
        },
    };
    let pieces = split_text(text.as_str(), ',');
    if text.as_str().unicode_len() == 0 {
        assert(out.deep_view() =~= Seq::<Seq<char>>::empty());
        return out;
    }
    let mut i: usize = 0;
    assert(out.deep_view() =~= pieces.deep_view().take(0).map_values(
        |piece: Seq<char>| key_point(piece),
    ));
    while i < pieces.len()
        invariant
            i <= pieces.len(),
            out.deep_view() == pieces.deep_view().take(i as int).map_values(
                |piece: Seq<char>| key_point(piece),
            ),
        decreases pieces.len() - i,
    {
        let v = chars_of(pieces[i].as_str());
        assert(v@.subrange(0, v.len() as int) =~= v@);
        let (a, b) = strip_bounds(&v, 0, v.len(), Strip::Whitespace);
        let (c, d) = strip_bounds(&v, a, b, Strip::Char('"'));
        let point = string_of(&v, c, d);
        let ghost before = out.deep_view();
        out.push(point);
        assert(out.deep_view() =~= before.push(point@));
        assert(pieces.deep_view().take(i + 1).map_values(|piece: Seq<char>| key_point(piece))
            =~= before.push(key_point(pieces.deep_view()[i as int])));
        i = i + 1;
    }
    assert(pieces.deep_view().take(pieces.len() as int) =~= pieces.deep_view());
    out
}

/// What the three fields found in a reply come to. `verdict` is the value of
/// the termination field, `next` that of the next handler's field where one
/// was asked for, `key_points_raw` what stands between the brackets of
/// `key_points`; each is `None` where the reply has no such field.
///
/// The task is to terminate exactly when `verdict` is `TERMINATE`, letter for
/// letter.
pub fn assemble_next_move(
    verdict: Option<String>,
    next: Option<String>,
    key_points_raw: Option<String>,
) -> (r: (bool, Option<String>, Vec<String>))
    ensures
        (r.0, r.1.deep_view(), r.2.deep_view()) == next_move_of(
            verdict.deep_view(),
            next.deep_view(),
            key_points_raw.deep_view(),
        ),
{
    let terminate = match &verdict {
        Some(v) => same_text(v.as_str(), TERMINATE),
        None => false,
    };
    (terminate, next, key_points_from(key_points_raw))
}

/// Reads from `input` whether to terminate, under the key `termination_key`;
/// the next handler, under the key `next_marker` where one is given; and the
/// key points. All three are looked for in the first single-level object of
/// `input`.
pub fn parse_next_move_with(input: &str, termination_key: &str, next_marker: Option<&str>) -> (r: (
    bool,
    Option<String>,
    Vec<String>,
))
    ensures
        (r.0, r.1.deep_view(), r.2.deep_view()) == next_move(
            input@,
            termination_key@,
            match next_marker {
                Some(m) => Some(m@),
                None => None,
            },
        ),
{
    let span = match first_capture(OBJECT_PATTERN, input, 0) {
        Some(span) => span,
        None => String::new(),
    };
    let verdict = first_capture(field_pattern_text(termination_key).as_str(), span.as_str(), 1);
    let next = match next_marker {
        Some(marker) => first_capture(field_pattern_text(marker).as_str(), span.as_str(), 1),
        None => None,
    };
    let key_points_raw = first_capture(KEY_POINTS_PATTERN, span.as_str(), 1);
    assemble_next_move(verdict, next, key_points_raw)
}

/// Reads from `input` whether to terminate, the next handler where
/// `next_marker` names its field, and the key points.
pub fn parse_next_move_and_(input: &str, next_marker: Option<&str>) -> (r: (
    bool,
    Option<String>,
    Vec<String>,
))
    ensures
        (r.0, r.1.deep_view(), r.2.deep_view()) == next_move(
            input@,
            TERMINATION_KEY@,
            match next_marker {
                Some(m) => Some(m@),
                None => None,
            },
        ),
{
    parse_next_move_with(input, TERMINATION_KEY, next_marker)
}

/// The steps, given what the text of the list `steps_to_take` was read as.
pub fn steps_from(parsed: Option<Vec<String>>) -> (r: Result<Vec<String>, PlanningError>)
    ensures
        match r {
            Ok(steps) => steps_of(parsed.deep_view()) == Ok::<Seq<Seq<char>>, PlanningError>(
                steps.deep_view(),
            ),
            Err(e) => steps_of(parsed.deep_view()) == Err::<Seq<Seq<char>>, PlanningError>(e),
        },
{
    match parsed {
        Some(steps) => Ok(steps),
        None => Err(PlanningError::InvalidSteps),
    }
}

/// The steps in the list `steps_to_take` of `input`, or why there are none.
pub fn parse_planning_steps_checked(input: &str) -> (r: Result<Vec<String>, PlanningError>)
    ensures
        match r {
            Ok(steps) => planning_steps_checked(input@) == Ok::<Seq<Seq<char>>, PlanningError>(
                steps.deep_view(),
            ),
            Err(e) => planning_steps_checked(input@) == Err::<Seq<Seq<char>>, PlanningError>(e),
        },
{
    match first_capture(STEPS_PATTERN, input, 1) {
        Some(list) => steps_from(string_array(list.as_str())),
        None => Err(PlanningError::MissingSteps),
    }
}

/// The steps in the list `steps_to_take` of `input`; none where the list is
/// missing or is no JSON list of strings.
pub fn parse_planning_steps(input: &str) -> (r: Vec<String>)
    ensures
        r.deep_view() == planning_steps(input@),
{
    match parse_planning_steps_checked(input) {
        Ok(steps) => steps,
        Err(_) => {
            let none: Vec<String> = Vec::new();
            assert(none.deep_view() =~= Seq::<Seq<char>>::empty());
            none
        },
    }
}

} // verus!
