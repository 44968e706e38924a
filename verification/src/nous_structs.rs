//! What the completion service replies, classified: plain text, or the
//! invocation of a tool.
//!
//! A reply is a tool invocation when, without its surrounding whitespace, it
//! stands between the markers [`TOOL_CALL_START`] and [`TOOL_CALL_END`] and
//! what stands between them is a JSON object with a string `name` and,
//! optionally, a mapping `arguments` from strings to strings. Every other
//! reply is plain text, kept as it came.

use crate::arguments::{as_map, put, Arguments};
use crate::json::{
    json_object_of, json_string_map_of, member, member_value, object_members, string_map,
    JsonMember, JsonMemberView,
};
use crate::text::{
    chars_of, debug_quoted, debug_text_of, ends_with, ends_with_at, join, starts_with,
    starts_with_at, string_of, strip_bounds, trim, Strip,
};
use vstd::prelude::*;

verus! {

/// The marker that opens a tool invocation.
pub const TOOL_CALL_START: &'static str = "<tool_call>";

/// The marker that closes a tool invocation.
pub const TOOL_CALL_END: &'static str = "</tool_call>";

/// The invocation of a tool: its name and, where given, its arguments.
#[derive(Debug)]
pub struct NousToolCall {
    pub name: String,
    pub arguments: Option<Arguments>,
}

/// The mathematical value of a [`NousToolCall`].
pub struct ToolCallView {
    pub name: Seq<char>,
    pub arguments: Option<Map<Seq<char>, Seq<char>>>,
}

impl View for NousToolCall {
    type V = ToolCallView;

    open spec fn view(&self) -> ToolCallView {
        ToolCallView {
            name: self.name@,
            arguments: match self.arguments {
                Some(a) => Some(a@),
                None => None,
            },
        }
    }
}

/// A reply's content: exactly one of plain text and a tool invocation.
#[derive(Debug)]
pub enum NousContent {
    Text(String),
    NousToolCall(NousToolCall),
}

/// The mathematical value of a [`NousContent`].
pub enum ContentView {
    Text(Seq<char>),
    ToolCall(ToolCallView),
}

impl View for NousContent {
    type V = ContentView;

    open spec fn view(&self) -> ContentView {
        match self {
            NousContent::Text(t) => ContentView::Text(t@),
            NousContent::NousToolCall(c) => ContentView::ToolCall(c@),
        }
    }
}

/// Who wrote a message of the conversation.
#[derive(Clone, Copy, Debug, PartialEq, Eq, Structural)]
pub enum ChatRole {
    System,
    Developer,
    User,
    Assistant,
    Function,
    Tool,
}

/// The token counts that the completion service reports for one reply.
#[derive(Clone, Copy, Debug, PartialEq, Eq, Structural)]
pub struct Usage {
    pub prompt_tokens: u64,
    pub completion_tokens: u64,
    pub total_tokens: u64,
}

/// One reply of the completion service, its content classified.
#[derive(Debug)]
pub struct NousResponseMessage {
    pub content: NousContent,
    pub role: ChatRole,
    pub usage: Usage,
}

/// What stands between the two markers of `data`, without surrounding
/// whitespace; `None` where `data`, without its own surrounding whitespace,
/// does not begin with the one marker and end with the other.
pub open spec fn tool_call_payload(data: Seq<char>) -> Option<Seq<char>> {
    let t = trim(data);
    let start = TOOL_CALL_START@;
    let end = TOOL_CALL_END@;
    if starts_with(t, start) && ends_with(t, end) && start.len() + end.len() <= t.len() {
        Some(trim(t.subrange(start.len() as int, t.len() - end.len())))
    } else {
        None
    }
}

/// The entries of a mapping, inserted one after the other: a later entry
/// takes the place of an earlier one with the same name.
pub open spec fn inserted(entries: Seq<(Seq<char>, Seq<char>)>) -> Seq<(Seq<char>, Seq<char>)>
    decreases entries.len(),
{
    if entries.len() == 0 {
        Seq::empty()
    } else {
        put(inserted(entries.drop_last()), entries.last().0, entries.last().1)
    }
}

/// The text of the nested object that is the member `arguments`, where that
/// member is an object.
pub open spec fn arguments_text(members: Seq<(Seq<char>, JsonMemberView)>) -> Option<Seq<char>> {
    match member(members, "arguments"@) {
        Some(JsonMemberView::Object(text)) => Some(text),
        _ => None,
    }
}

/// The tool invocation that the members of a JSON object encode. `arguments`
/// is what the member `arguments` holds where it is an object of strings.
///
/// There is one when `name` is a string and `arguments` is absent, `null` or
/// an object whose values are all strings.
pub open spec fn tool_call_of(
    members: Seq<(Seq<char>, JsonMemberView)>,
    arguments: Option<Seq<(Seq<char>, Seq<char>)>>,
) -> Option<ToolCallView> {
    match member(members, "name"@) {
        Some(JsonMemberView::Text(name)) => match member(members, "arguments"@) {
            None | Some(JsonMemberView::Null) => Some(ToolCallView { name, arguments: None }),
            Some(JsonMemberView::Object(_)) => match arguments {
                Some(entries) => Some(
                    ToolCallView { name, arguments: Some(as_map(inserted(entries))) },
                ),
                None => None,
            },
            Some(_) => None,
        },
        _ => None,
    }
}

/// The tool invocation that the JSON text `json` encodes, where it encodes
/// one.
pub open spec fn parsed_tool_call(json: Seq<char>) -> Option<ToolCallView> {
    match json_object_of(json) {
        Some(members) => tool_call_of(
            members,
            match arguments_text(members) {
                Some(text) => json_string_map_of(text),
                None => None,
            },
        ),
        None => None,
    }
}

/// Whether `data` is a well-formed tool invocation.
pub open spec fn is_tool_call_text(data: Seq<char>) -> bool {
    tool_call_payload(data) matches Some(payload) && parsed_tool_call(payload) is Some
}

/// The content that `data` is classified as.
pub open spec fn classified(data: Seq<char>) -> ContentView {
    if is_tool_call_text(data) {
        ContentView::ToolCall(parsed_tool_call(tool_call_payload(data)->0)->0)
    } else {
        ContentView::Text(data)
    }
}

/// One argument as a rendered reply shows it: name and value, each quoted.
pub open spec fn rendered_argument(entry: (Seq<char>, Seq<char>)) -> Seq<char> {
    debug_text_of(entry.0) + ": "@ + debug_text_of(entry.1)
}

/// A content as one text: plain text as it is, a tool invocation as its name
/// and its arguments in order.
pub open spec fn rendered(name: Seq<char>, entries: Seq<(Seq<char>, Seq<char>)>) -> Seq<char> {
    "tool_call: "@ + name + ", arguments: "@ + join(
        entries.map_values(|e: (Seq<char>, Seq<char>)| rendered_argument(e)),
        ", "@,
    )
}

impl NousToolCall {
    /// The entries of the arguments in order; none where there are no
    /// arguments.
    pub open spec fn entries(&self) -> Seq<(Seq<char>, Seq<char>)> {
        match self.arguments {
            Some(a) => a.entries(),
            None => Seq::empty(),
        }
    }

    /// A copy of the invocation.
    pub fn duplicate(&self) -> (r: Self)
        ensures
            r@ == self@,
            r.entries() == self.entries(),
    {
        NousToolCall {
            name: self.name.clone(),
            arguments: match &self.arguments {
                Some(a) => Some(a.duplicate()),
                None => None,
            },
        }
    }

    /// Whether the two invocations have the same name and the same arguments.
    pub fn same_as(&self, other: &NousToolCall) -> (r: bool)
        ensures
            r == (self@ == other@),
    {
        if self.name != other.name {
            return false;
        }
        match (&self.arguments, &other.arguments) {
            (Some(a), Some(b)) => a.same_as(b),
            (None, None) => true,
            _ => false,
        }
    }
}

impl Clone for NousToolCall {
    fn clone(&self) -> (r: Self)
        ensures
            r@ == self@,
    {
        self.duplicate()
    }
}

impl PartialEq for NousToolCall {
    fn eq(&self, other: &Self) -> (r: bool) {
        self.same_as(other)
    }
}

impl vstd::std_specs::cmp::PartialEqSpecImpl for NousToolCall {
    open spec fn obeys_eq_spec() -> bool {
        true
    }

    open spec fn eq_spec(&self, other: &Self) -> bool {
        self@ == other@
    }
}

impl NousContent {
    /// A copy of the content.
    pub fn duplicate(&self) -> (r: Self)
        ensures
            r@ == self@,
    {
        match self {
            NousContent::Text(s) => NousContent::Text(s.clone()),
            NousContent::NousToolCall(t) => NousContent::NousToolCall(t.duplicate()),
        }
    }

    /// Whether the two contents are of one kind and hold the same.
    pub fn same_as(&self, other: &NousContent) -> (r: bool)
        ensures
            r == (self@ == other@),
    {
        match (self, other) {
            (NousContent::Text(a), NousContent::Text(b)) => *a == *b,
            (NousContent::NousToolCall(a), NousContent::NousToolCall(b)) => a.same_as(b),
            _ => false,
        }
    }

    /// The content as one text.
    pub fn render(&self) -> (r: String)
        ensures
            r@ == match self {
                NousContent::Text(t) => t@,
                NousContent::NousToolCall(c) => rendered(c.name@, c.entries()),
            },
    {
        match self {
            NousContent::Text(text) => text.clone(),
            NousContent::NousToolCall(call) => {
                let mut parts: Vec<String> = Vec::new();
                match &call.arguments {
                    Some(args) => {
                        let n = args.len();
                        let mut i: usize = 0;
                        assert(parts.deep_view() =~= args.entries().take(0).map_values(
                            |e: (Seq<char>, Seq<char>)| rendered_argument(e),
                        ));
                        while i < n
                            invariant
                                i <= n,
                                n == args.entries().len(),
                                parts.deep_view() == args.entries().take(i as int).map_values(
                                    |e: (Seq<char>, Seq<char>)| rendered_argument(e),
                                ),
                            decreases n - i,
                        {
                            let mut part = debug_quoted(args.name_at(i).as_str());
                            part.append(": ");
                            let value = debug_quoted(args.value_at(i).as_str());
                            part.append(value.as_str());
                            let ghost before = parts.deep_view();
                            parts.push(part);
                            assert(parts.deep_view() =~= before.push(part@));
                            assert(args.entries().take(i + 1).map_values(
                                |e: (Seq<char>, Seq<char>)| rendered_argument(e),
                            ) =~= before.push(rendered_argument(args.entries()[i as int])));
                            i = i + 1;
                        }
                        assert(args.entries().take(n as int) =~= args.entries());
                    },
                    None => {
                        assert(parts.deep_view() =~= call.entries().map_values(
                            |e: (Seq<char>, Seq<char>)| rendered_argument(e),
                        ));
                    },
                }
                let list = crate::text::join_text(&parts, ", ");
                let mut out = String::new();
                out.append("tool_call: ");
                out.append(call.name.as_str());
                out.append(", arguments: ");
                out.append(list.as_str());
                assert(out@ =~= rendered(call.name@, call.entries()));
                out
            },
        }
    }
}

impl Clone for NousContent {
    fn clone(&self) -> (r: Self)
        ensures
            r@ == self@,
    {
        self.duplicate()
    }
}

impl PartialEq for NousContent {
    fn eq(&self, other: &Self) -> (r: bool) {
        self.same_as(other)
    }
}

impl vstd::std_specs::cmp::PartialEqSpecImpl for NousContent {
    open spec fn obeys_eq_spec() -> bool {
        true
    }

    open spec fn eq_spec(&self, other: &Self) -> bool {
        self@ == other@
    }
}

impl Clone for NousResponseMessage {
    fn clone(&self) -> (r: Self)
        ensures
            r.content@ == self.content@,
            r.role == self.role,
            r.usage == self.usage,
    {
        NousResponseMessage {
            content: self.content.duplicate(),
            role: self.role,
            usage: self.usage,
        }
    }
}

impl NousResponseMessage {
    /// The reply's content as one text: plain text as it is, a tool invocation
    /// as `tool_call: ` and its name, then `, arguments: ` and its arguments
    /// in order, each as quoted name, `: ` and quoted value, with `, ` between
    /// them.
    pub fn content_to_string(&self) -> (r: String)
        ensures
            r@ == match self.content {
                NousContent::Text(t) => t@,
                NousContent::NousToolCall(c) => rendered(c.name@, c.entries()),
            },
    {
        self.content.render()
    }
}

/// What stands between the markers of a tool invocation, where
/// `xml_like_data` is framed as one.
pub fn extract_json_from_xml_like(xml_like_data: &str) -> (r: Option<String>)
    ensures
        r.deep_view() == tool_call_payload(xml_like_data@),
{
    let v = chars_of(xml_like_data);
    let start = chars_of(TOOL_CALL_START);
    let end = chars_of(TOOL_CALL_END);
    assert(v@.subrange(0, v.len() as int) =~= v@);
    let (a, b) = strip_bounds(&v, 0, v.len(), Strip::Whitespace);
    let ghost t = v@.subrange(a as int, b as int);
    if starts_with_at(&v, a, b, &start) && ends_with_at(&v, a, b, &end) && start.len() <= b - a
        && end.len() <= b - a - start.len() {
        let (c, d) = strip_bounds(&v, a + start.len(), b - end.len(), Strip::Whitespace);
        assert(v@.subrange(a + start.len(), b - end.len()) =~= t.subrange(
            start.len() as int,
            t.len() - end.len(),
        ));
        Some(string_of(&v, c, d))
    } else {
        None
    }
}

/// The mapping with `pairs` inserted one after the other.
pub fn arguments_from_pairs(pairs: Vec<(String, String)>) -> (r: Arguments)
    ensures
        r.entries() == inserted(pairs.deep_view()),
        r@ == as_map(inserted(pairs.deep_view())),
{
    let mut out = Arguments::new();
    let mut i: usize = 0;
    assert(pairs.deep_view().take(0) =~= Seq::<(Seq<char>, Seq<char>)>::empty());
    while i < pairs.len()
        invariant
            i <= pairs.len(),
            out.entries() == inserted(pairs.deep_view().take(i as int)),
        decreases pairs.len() - i,
    {
        proof {
            let next = pairs.deep_view().take(i + 1);
            assert(next.drop_last() =~= pairs.deep_view().take(i as int));
            assert(next.last() == pairs.deep_view()[i as int]);
        }
        out.insert(pairs[i].0.clone(), pairs[i].1.clone());
        i = i + 1;
    }
    assert(pairs.deep_view().take(pairs.len() as int) =~= pairs.deep_view());
    out
}

/// The tool invocation that the members of a JSON object encode, where they
/// encode one. `arguments` is what the object text of the member `arguments`
/// was read as.
pub fn tool_call_from_members(
    members: &Vec<(String, JsonMember)>,
    arguments: Option<Vec<(String, String)>>,
) -> (r: Option<NousToolCall>)
    ensures
        match r {
            Some(call) => tool_call_of(members.deep_view(), arguments.deep_view()) == Some(call@),
            None => tool_call_of(members.deep_view(), arguments.deep_view()) is None,
        },
{
    let name = match member_value(members, "name") {
        Some(JsonMember::Text(s)) => s.clone(),
        _ => {
            return None;
        },
    };
    match member_value(members, "arguments") {
        None => Some(NousToolCall { name, arguments: None }),
        Some(JsonMember::Null) => Some(NousToolCall { name, arguments: None }),
        Some(JsonMember::Object(_)) => match arguments {
            Some(pairs) => Some(NousToolCall { name, arguments: Some(arguments_from_pairs(pairs)) }),
            None => None,
        },
        Some(_) => None,
    }
}

/// Reads `json` as a tool invocation.
pub fn parse_tool_call(json: &str) -> (r: Option<NousToolCall>)
    ensures
        match r {
            Some(call) => parsed_tool_call(json@) == Some(call@),
            None => parsed_tool_call(json@) is None,
        },
{
    match object_members(json) {
        Some(members) => {
            let arguments = match member_value(&members, "arguments") {
                Some(JsonMember::Object(text)) => string_map(text.as_str()),
                _ => None,
            };
            tool_call_from_members(&members, arguments)
        },
        None => None,
    }
}

/// Classifies the raw text of a reply: a tool invocation where it is framed
/// and encoded as one, and else plain text, which is `data` unchanged.
pub fn classify_content(data: &str) -> (r: NousContent)
    ensures
        r@ == classified(data@),
{
    match extract_json_from_xml_like(data) {
        Some(json) => match parse_tool_call(json.as_str()) {
            Some(call) => NousContent::NousToolCall(call),
            None => NousContent::Text(String::from_str(data)),
        },
        None => NousContent::Text(String::from_str(data)),
    }
}

/// The reply with the text `data`, written by `role` at the cost `usage`,
/// its content classified.
pub fn output_nous_response(data: &str, role: ChatRole, usage: Usage) -> (r: NousResponseMessage)
    ensures
        r.content@ == classified(data@),
        r.role == role,
        r.usage == usage,
{
    NousResponseMessage { content: classify_content(data), role, usage }
}

} // verus!
