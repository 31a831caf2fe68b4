//! Saving and loading conversations: which messages still need saving,
//! the title a conversation is saved under, the roles read back, and the
//! status shown after loading. The store itself is kept at the edge.
use vstd::prelude::*;
use vstd::string::StringSliceAdditionalSpecFns;
use vstd::utf8::{decode_utf8, encode_utf8, is_char_boundary};
use crate::app::TuiMessage;
use crate::text::{decimal, owned, push_str, str_eq, usize_to_string};

verus! {

broadcast use vstd::string::group_string_axioms, vstd::utf8::group_utf8_lib;

/// Who wrote a stored message.
#[derive(Debug, Clone, Copy, PartialEq, Eq, Structural)]
pub enum MessageRole {
    User,
    Assistant,
    System,
    Tool,
}

/// The role a stored role name stands for; an unknown name counts as the
/// user.
pub open spec fn message_role_spec(role: Seq<char>) -> MessageRole {
    if role == "user"@ {
        MessageRole::User
    } else if role == "assistant"@ {
        MessageRole::Assistant
    } else if role == "system"@ {
        MessageRole::System
    } else if role == "tool"@ {
        MessageRole::Tool
    } else {
        MessageRole::User
    }
}

/// Reads a stored role name.
pub fn message_role(role: &str) -> (r: MessageRole)
    ensures
        r == message_role_spec(role@),
{
    if str_eq(role, "user") {
        MessageRole::User
    } else if str_eq(role, "assistant") {
        MessageRole::Assistant
    } else if str_eq(role, "system") {
        MessageRole::System
    } else if str_eq(role, "tool") {
        MessageRole::Tool
    } else {
        MessageRole::User
    }
}

/// The title a conversation is saved under: its first message, cut to 47
/// bytes with `...` after it when longer than 50 bytes.
pub open spec fn session_title_spec(first: Seq<char>) -> Seq<char> {
    if encode_utf8(first).len() > 50 {
        decode_utf8(encode_utf8(first).subrange(0, 47)) + "..."@
    } else {
        first
    }
}

/// Cutting a long first message at 47 bytes must not split a character.
pub open spec fn title_cuttable(first: Seq<char>) -> bool {
    encode_utf8(first).len() <= 50 || is_char_boundary(encode_utf8(first), 47)
}

/// The title of a conversation with this first message.
pub fn session_title(first: &str) -> (r: String)
    requires
        title_cuttable(first@),
    ensures
        r@ == session_title_spec(first@),
{
    let chars = crate::text::to_chars(first);
    if crate::text::utf8_len_at_most(chars.as_slice(), 50) {
        return owned(first);
    }
    proof {
        assert(first.spec_bytes() == encode_utf8(first@));
    }
    let (head, _) = first.split_at(47);
    proof {
        vstd::utf8::encode_utf8_decode_utf8(head@);
        assert(head.spec_bytes() == encode_utf8(head@));
        assert(head.spec_bytes() =~= encode_utf8(first@).subrange(0, 47));
    }
    let mut out = owned(head);
    push_str(&mut out, "...");
    out
}

/// The title of a conversation: from its first message, or a fixed one
/// when it has none.
pub fn conversation_title(messages: &[TuiMessage]) -> (r: String)
    requires
        messages@.len() > 0 ==> title_cuttable(messages@[0].content@),
    ensures
        messages@.len() > 0 ==> r@ == session_title_spec(messages@[0].content@),
        messages@.len() == 0 ==> r@ == "Backgrounded session"@,
{
    if messages.len() > 0 {
        session_title(messages[0].content.as_str())
    } else {
        "Backgrounded session".to_string()
    }
}

/// The positions of the messages still to be saved, in order: those after
/// the ones the store has, except the one being streamed.
pub open spec fn unsaved_spec(count: nat, existing: nat, streaming: Option<usize>) -> Seq<usize>
    decreases count,
{
    if count == 0 {
        seq![]
    } else {
        let i = (count - 1) as nat;
        unsaved_spec(i, existing, streaming) + if i >= existing && streaming != Some(i as usize) {
            seq![i as usize]
        } else {
            seq![]
        }
    }
}

/// The positions of the messages still to be saved.
pub fn unsaved_indices(count: usize, existing: usize, streaming: Option<usize>) -> (r: Vec<usize>)
    ensures
        r@ == unsaved_spec(count as nat, existing as nat, streaming),
{
    let mut out: Vec<usize> = Vec::new();
    let mut i: usize = 0;
    while i < count
        invariant
            i <= count,
            out@ == unsaved_spec(i as nat, existing as nat, streaming),
        decreases count - i,
    {
        let skip = match streaming {
            Some(s) => s == i,
            None => false,
        };
        if i >= existing && !skip {
            out.push(i);
        }
        assert(unsaved_spec((i + 1) as nat, existing as nat, streaming) == unsaved_spec(
            i as nat,
            existing as nat,
            streaming,
        ) + if i >= existing && streaming != Some(i) {
            seq![i]
        } else {
            seq![]
        });
        i = i + 1;
    }
    out
}

/// The status after loading a conversation: the first eight bytes of its
/// id, the number of messages and, when there are any, of tasks.
pub open spec fn loaded_status_spec(id: Seq<char>, messages: nat, tasks: nat) -> Seq<char> {
    let cut = if encode_utf8(id).len() < 8 {
        encode_utf8(id).len() as int
    } else {
        8
    };
    "Loaded session: "@ + decode_utf8(encode_utf8(id).subrange(0, cut)) + " ("@ + decimal(messages)
        + " messages"@ + (if tasks > 0 {
        ", "@ + decimal(tasks) + " tasks"@
    } else {
        seq![]
    }) + ")"@
}

/// Cutting the id at eight bytes must not split a character.
pub open spec fn id_cuttable(id: Seq<char>) -> bool {
    encode_utf8(id).len() < 8 || is_char_boundary(encode_utf8(id), 8)
}

/// The status shown after loading a conversation.
pub fn loaded_status(id: &str, messages: usize, tasks: usize) -> (r: String)
    requires
        id_cuttable(id@),
    ensures
        r@ == loaded_status_spec(id@, messages as nat, tasks as nat),
{
    proof {
        assert(id.spec_bytes() == encode_utf8(id@));
        vstd::utf8::encode_utf8_decode_utf8(id@);
    }
    let chars = crate::text::to_chars(id);
    let head: &str = if crate::text::utf8_len_at_most(chars.as_slice(), 7) {
        proof {
            assert(encode_utf8(id@).subrange(0, encode_utf8(id@).len() as int) =~= encode_utf8(id@));
        }
        id
    } else {
        let (h, _) = id.split_at(8);
        proof {
            vstd::utf8::encode_utf8_decode_utf8(h@);
            assert(h.spec_bytes() == encode_utf8(h@));
            assert(h.spec_bytes() =~= encode_utf8(id@).subrange(0, 8));
        }
        h
    };
    let mut s = "Loaded session: ".to_string();
    push_str(&mut s, head);
    push_str(&mut s, " (");
    push_str(&mut s, usize_to_string(messages).as_str());
    push_str(&mut s, " messages");
    if tasks > 0 {
        push_str(&mut s, ", ");
        push_str(&mut s, usize_to_string(tasks).as_str());
        push_str(&mut s, " tasks");
    } else {
        assert(s@ + Seq::<char>::empty() =~= s@);
    }
    push_str(&mut s, ")");
    s
}

/// Whether the model must answer again after loading: the last message is
/// the user's.
pub fn needs_resume(messages: &[TuiMessage]) -> (r: bool)
    ensures
        r == (messages@.len() > 0 && messages@.last().role@ == "user"@),
{
    let n = messages.len();
    if n == 0 {
        false
    } else {
        str_eq(messages[n - 1].role.as_str(), "user")
    }
}

} // verus!
