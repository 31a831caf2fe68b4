//! What the conversation keeps of a tool's result: the output limited in
//! size before it goes back to the model, and the note shown in the
//! console.
use vstd::prelude::*;
use vstd::string::StringSliceAdditionalSpecFns;
use vstd::utf8::{decode_utf8, encode_utf8, is_char_boundary};
use crate::text::{decimal, owned, push_str, to_chars, usize_to_string, utf8_len_at_most};

verus! {

broadcast use vstd::string::group_string_axioms, vstd::utf8::group_utf8_lib;

/// At most this many bytes of a tool's output go back to the model.
pub const MAX_TOOL_OUTPUT_CHARS: usize = 10000;

/// The console note shows at most this many bytes of a result.
pub const NOTE_PREVIEW_CHARS: usize = 200;

/// The first `n` bytes of `s`, as text.
pub open spec fn head_bytes(s: Seq<char>, n: nat) -> Seq<char> {
    decode_utf8(encode_utf8(s).subrange(0, n as int))
}

/// Cutting `s` after `n` bytes does not split a character (or `s` is not
/// longer than that).
pub open spec fn cuttable(s: Seq<char>, n: nat) -> bool {
    encode_utf8(s).len() <= n || is_char_boundary(encode_utf8(s), n as int)
}

/// The output kept for the model: a longer output is cut after
/// [`MAX_TOOL_OUTPUT_CHARS`] bytes and says how much it had.
pub open spec fn limited_output_spec(content: Seq<char>) -> Seq<char> {
    let n = encode_utf8(content).len();
    if n > MAX_TOOL_OUTPUT_CHARS {
        head_bytes(content, MAX_TOOL_OUTPUT_CHARS as nat) + "\n\n[Output truncated: "@ + decimal(
            MAX_TOOL_OUTPUT_CHARS as nat,
        ) + " of "@ + decimal(n) + " characters]"@
    } else {
        content
    }
}

/// The first `n` bytes of `s` (`&s[..n]`).
pub(crate) fn cut_at(s: &str, n: usize) -> (r: String)
    requires
        n <= encode_utf8(s@).len(),
        is_char_boundary(encode_utf8(s@), n as int),
    ensures
        r@ == head_bytes(s@, n as nat),
{
    proof {
        assert(s.spec_bytes() == encode_utf8(s@));
    }
    let (head, _) = s.split_at(n);
    proof {
        vstd::utf8::encode_utf8_decode_utf8(head@);
        assert(head.spec_bytes() == encode_utf8(head@));
        assert(head.spec_bytes() =~= encode_utf8(s@).subrange(0, n as int));
    }
    owned(head)
}

/// The byte length of `s` (`str::len`).
fn byte_len(s: &str) -> (r: usize)
    requires
        encode_utf8(s@).len() <= usize::MAX,
    ensures
        r == encode_utf8(s@).len(),
{
    proof {
        assert(s.spec_bytes() == encode_utf8(s@));
    }
    s.len()
}

/// Limits a tool's output before it goes back to the model.
pub fn limit_tool_output(content: &str) -> (r: String)
    requires
        cuttable(content@, MAX_TOOL_OUTPUT_CHARS as nat),
        encode_utf8(content@).len() <= usize::MAX,
    ensures
        r@ == limited_output_spec(content@),
{
    let n = byte_len(content);
    if n <= MAX_TOOL_OUTPUT_CHARS {
        return owned(content);
    }
    let mut out = cut_at(content, MAX_TOOL_OUTPUT_CHARS);
    push_str(&mut out, "\n\n[Output truncated: ");
    let limit = usize_to_string(MAX_TOOL_OUTPUT_CHARS);
    push_str(&mut out, limit.as_str());
    push_str(&mut out, " of ");
    let total = usize_to_string(n);
    push_str(&mut out, total.as_str());
    push_str(&mut out, " characters]");
    out
}

/// The console note on a finished tool call: a failure shows the start of
/// the error; a success shows the start of the kept output, with `...`
/// when it is longer than the preview.
pub open spec fn result_note_spec(tool_name: Seq<char>, is_error: bool, content: Seq<char>, output: Seq<char>) -> Seq<char> {
    if is_error {
        let shown = if encode_utf8(content).len() > NOTE_PREVIEW_CHARS {
            head_bytes(content, NOTE_PREVIEW_CHARS as nat)
        } else {
            content
        };
        "\u{274c} Tool "@ + tool_name + " failed: "@ + shown
    } else {
        let preview = if encode_utf8(output).len() > NOTE_PREVIEW_CHARS {
            head_bytes(output, NOTE_PREVIEW_CHARS as nat) + "..."@
        } else {
            output
        };
        "\u{2705} Tool "@ + tool_name + " completed: "@ + preview
    }
}

/// The console note on a finished tool call, from the raw result
/// `content` and the `output` kept for the model.
pub fn tool_result_note(tool_name: &str, is_error: bool, content: &str, output: &str) -> (r: String)
    requires
        is_error ==> cuttable(content@, NOTE_PREVIEW_CHARS as nat),
        !is_error ==> cuttable(output@, NOTE_PREVIEW_CHARS as nat),
    ensures
        r@ == result_note_spec(tool_name@, is_error, content@, output@),
{
    if is_error {
        let mut note = "\u{274c} Tool ".to_string();
        push_str(&mut note, tool_name);
        push_str(&mut note, " failed: ");
        let chars = to_chars(content);
        if utf8_len_at_most(chars.as_slice(), NOTE_PREVIEW_CHARS) {
            push_str(&mut note, content);
        } else {
            let shown = cut_at(content, NOTE_PREVIEW_CHARS);
            push_str(&mut note, shown.as_str());
        }
        note
    } else {
        let mut note = "\u{2705} Tool ".to_string();
        push_str(&mut note, tool_name);
        push_str(&mut note, " completed: ");
        let chars = to_chars(output);
        if utf8_len_at_most(chars.as_slice(), NOTE_PREVIEW_CHARS) {
            push_str(&mut note, output);
        } else {
            let shown = cut_at(output, NOTE_PREVIEW_CHARS);
            push_str(&mut note, shown.as_str());
            push_str(&mut note, "...");
        }
        note
    }
}

/// A successful `task_list_write` call changes the session's task list,
/// which is then read anew.
pub fn refreshes_task_cache(tool_name: &str, is_error: bool) -> (r: bool)
    ensures
        r == (!is_error && tool_name@ == "task_list_write"@),
{
    !is_error && crate::text::str_eq(tool_name, "task_list_write")
}

} // verus!
