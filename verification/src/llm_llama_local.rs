//! Messages of a conversation as they are sent to a completion service, and
//! two readers of summaries that the service writes as JSON objects.

use crate::json::{
    json_object_of, member, member_value, object_members, JsonMember, JsonMemberView,
};
use crate::nous_structs::{rendered, ChatRole, NousContent};
use crate::text::{join, join_text};
use vstd::prelude::*;

verus! {

/// One message of a conversation.
#[derive(Debug)]
pub struct Message {
    pub role: ChatRole,
    pub name: Option<String>,
    pub content: NousContent,
}

/// The role under which a message written by `role` is sent to the
/// completion service: the system's and the user's under their own, every
/// other under the assistant's.
pub open spec fn request_role_of(role: ChatRole) -> ChatRole {
    match role {
        ChatRole::System => ChatRole::System,
        ChatRole::User => ChatRole::User,
        _ => ChatRole::Assistant,
    }
}

impl Message {
    /// The message's content as one text.
    pub fn content_to_string(&self) -> (r: String)
        ensures
            r@ == match self.content {
                NousContent::Text(t) => t@,
                NousContent::NousToolCall(c) => rendered(c.name@, c.entries()),
            },
    {
        self.content.render()
    }

    /// The role under which the message is sent to the completion service.
    pub fn request_role(&self) -> (r: ChatRole)
        ensures
            r == request_role_of(self.role),
    {
        match self.role {
            ChatRole::System => ChatRole::System,
            ChatRole::User => ChatRole::User,
            _ => ChatRole::Assistant,
        }
    }
}

/// The fields of a summary, in the order in which they are written out.
pub open spec fn summary_fields() -> Seq<Seq<char>> {
    seq!["impactful"@, "alignment"@, "patterns"@, "synergy"@, "significance"@]
}

/// Whether the member is one that a summary field may hold: a string,
/// `null`, or nothing.
pub open spec fn is_optional_text(m: Option<JsonMemberView>) -> bool {
    m is None || m == Some(JsonMemberView::Null) || (m matches Some(JsonMemberView::Text(_)))
}

/// The texts of the first `n` summary fields that hold a text that is not
/// empty.
pub open spec fn summary_parts(members: Seq<(Seq<char>, JsonMemberView)>, n: int) -> Seq<Seq<char>>
    decreases n,
{
    if n <= 0 {
        Seq::empty()
    } else {
        let before = summary_parts(members, n - 1);
        match member(members, summary_fields()[n - 1]) {
            Some(JsonMemberView::Text(t)) => if t.len() > 0 {
                before.push(t)
            } else {
                before
            },
            _ => before,
        }
    }
}

/// The summary in the members of a JSON object: the texts of its fields that
/// are not empty, with one blank between each two. `None` where a field
/// holds something else than a string or `null`.
pub open spec fn summary_of(members: Seq<(Seq<char>, JsonMemberView)>) -> Option<Seq<char>> {
    if forall|i: int|
        0 <= i < summary_fields().len() ==> is_optional_text(
            member(members, #[trigger] summary_fields()[i]),
        ) {
        Some(join(summary_parts(members, 5), " "@))
    } else {
        None
    }
}

/// The members that hold a string, each with its key, in the order of the
/// members.
pub open spec fn text_members(members: Seq<(Seq<char>, JsonMemberView)>) -> Seq<
    (Seq<char>, Seq<char>),
>
    decreases members.len(),
{
    if members.len() == 0 {
        Seq::empty()
    } else {
        let before = text_members(members.drop_last());
        match members.last().1 {
            JsonMemberView::Text(t) => before.push((members.last().0, t)),
            _ => before,
        }
    }
}

/// The summary in the members of a JSON object.
pub fn summary_from_members(members: &Vec<(String, JsonMember)>) -> (r: Option<String>)
    ensures
        r.deep_view() == summary_of(members.deep_view()),
{
    let mut fields: Vec<&str> = Vec::new();
    fields.push("impactful");
    fields.push("alignment");
    fields.push("patterns");
    fields.push("synergy");
    fields.push("significance");
    assert(fields@.len() == 5);
    assert(fields@[0]@ == summary_fields()[0] && fields@[1]@ == summary_fields()[1]
        && fields@[2]@ == summary_fields()[2] && fields@[3]@ == summary_fields()[3]
        && fields@[4]@ == summary_fields()[4]);
    let mut parts: Vec<String> = Vec::new();
    let mut i: usize = 0;
    assert(parts.deep_view() =~= summary_parts(members.deep_view(), 0));
    while i < 5
        invariant
            i <= 5,
            fields@.len() == 5,
            forall|k: int| 0 <= k < 5 ==> (#[trigger] fields@[k])@ == summary_fields()[k],
            parts.deep_view() == summary_parts(members.deep_view(), i as int),
            forall|k: int|
                0 <= k < i ==> is_optional_text(
                    member(members.deep_view(), #[trigger] summary_fields()[k]),
                ),
        decreases 5 - i,
    {
        assert(fields@[i as int]@ == summary_fields()[i as int]);
        match member_value(members, fields[i]) {
            Some(JsonMember::Text(t)) => {
                if t.as_str().unicode_len() > 0 {
                    let ghost before = parts.deep_view();
                    parts.push(t.clone());
                    assert(parts.deep_view() =~= before.push(t@));
                }
            },
            Some(JsonMember::Null) => {},
            None => {},
            Some(_) => {
                assert(!is_optional_text(
                    member(members.deep_view(), summary_fields()[i as int]),
                ));
                return None;
            },
        }
        i = i + 1;
    }
    Some(join_text(&parts, " "))
}

/// The summary that the JSON object `input` holds: the texts of its fields
/// `impactful`, `alignment`, `patterns`, `synergy` and `significance` that
/// are not empty, in this order, with one blank between each two. `None`
/// where `input` is no JSON object or one of the fields holds something else
/// than a string or `null`.
pub fn parse_summary_from_raw_json(input: &str) -> (r: Option<String>)
    ensures
        r.deep_view() == match json_object_of(input@) {
            Some(members) => summary_of(members),
            None => None,
        },
{
    match object_members(input) {
        Some(members) => summary_from_members(&members),
        None => None,
    }
}

/// The members that hold a string, each with its key.
pub fn summaries_from_members(members: &Vec<(String, JsonMember)>) -> (r: Vec<(String, String)>)
    ensures
        r.deep_view() == text_members(members.deep_view()),
{
    let mut out: Vec<(String, String)> = Vec::new();
    let mut i: usize = 0;
    assert(members.deep_view().take(0) =~= Seq::<(Seq<char>, JsonMemberView)>::empty());
    assert(out.deep_view() =~= Seq::<(Seq<char>, Seq<char>)>::empty());
    while i < members.len()
        invariant
            i <= members.len(),
            out.deep_view() == text_members(members.deep_view().take(i as int)),
        decreases members.len() - i,
    {
        proof {
            let next = members.deep_view().take(i + 1);
            assert(next.drop_last() =~= members.deep_view().take(i as int));
            assert(next.last() == members.deep_view()[i as int]);
        }
        match &members[i].1 {
            JsonMember::Text(t) => {
                let ghost before = out.deep_view();
                out.push((members[i].0.clone(), t.clone()));
                assert(out.deep_view() =~= before.push((members@[i as int].0@, t@)));
            },
            _ => {},
        }
        i = i + 1;
    }
    assert(members.deep_view().take(members.len() as int) =~= members.deep_view());
    out
}

/// The summaries that the JSON object `input` holds: its members that are
/// strings, each with its key. `None` exactly when `input` is no JSON
/// object.
pub fn parse_issue_summary_from_json(input: &str) -> (r: Option<Vec<(String, String)>>)
    ensures
        r.deep_view() == match json_object_of(input@) {
            Some(members) => Some(text_members(members)),
            None => None,
        },
{
    match object_members(input) {
        Some(members) => Some(summaries_from_members(&members)),
        None => None,
    }
}

} // verus!
