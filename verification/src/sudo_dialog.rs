//! The sudo password dialog: the request waiting for a password, the
//! password being typed (edited at a byte position, as the text is stored)
//! and what a key does. The password is handed out once, on submit; the
//! program that keeps the request's channel sends it.
use vstd::prelude::*;
use vstd::utf8::*;
use crate::events::{is_escape_spec, Event, KeyCode};
use crate::text::{
    at_boundary, chars_after, chars_before, from_char_range, lemma_boundary_after, lemma_encode_utf8_concat, push_str,
    string_push, to_chars,
};

verus! {

broadcast use {vstd::string::group_string_axioms, encode_utf8_decode_utf8};

/// A request for the sudo password.
#[derive(Debug, Clone)]
pub struct PendingSudoRequest {
    /// Request ID
    pub id: String,
    /// The command that requires sudo
    pub command: String,
}

/// State for the sudo password dialog.
pub struct SudoDialogState {
    /// Current pending sudo request
    pub current_request: Option<PendingSudoRequest>,
    /// The password typed so far
    password_buffer: String,
    /// Cursor position in the password, in bytes of its UTF-8 encoding
    pub cursor_pos: usize,
}

/// The abstract value of a [`SudoDialogState`]: the request waiting (its
/// id and command), the password typed and the cursor's byte position.
pub struct SudoDialogView {
    pub current: Option<(Seq<char>, Seq<char>)>,
    pub password: Seq<char>,
    pub cursor: nat,
}

impl View for SudoDialogState {
    type V = SudoDialogView;

    closed spec fn view(&self) -> SudoDialogView {
        SudoDialogView {
            current: match self.current_request {
                Some(p) => Some((p.id@, p.command@)),
                None => None,
            },
            password: self.password_buffer@,
            cursor: self.cursor_pos as nat,
        }
    }
}

impl SudoDialogState {

    /// No request, an empty password.
    pub fn new() -> (r: SudoDialogState)
        ensures
            r@.current is None,
            r@.password.len() == 0,
            r@.cursor == 0,
    {
        SudoDialogState { current_request: None, password_buffer: String::new(), cursor_pos: 0 }
    }

    /// Shows `request` (replacing a waiting one) with an empty password.
    pub fn set_request(&mut self, request: PendingSudoRequest)
        ensures
            final(self)@.current == Some((request.id@, request.command@)),
            final(self)@.password.len() == 0,
            final(self)@.cursor == 0,
    {
        self.current_request = Some(request);
        self.password_buffer = String::new();
        self.cursor_pos = 0;
    }

    /// Inserts `c` at the cursor and moves the cursor on by one byte.
    pub fn insert_char(&mut self, c: char)
        requires
            at_boundary(old(self)@.password, old(self)@.cursor as int),
            old(self)@.cursor < usize::MAX,
        ensures
            final(self)@.password == chars_before(old(self)@.password, old(self)@.cursor as int) + seq![c]
                + chars_after(old(self)@.password, old(self)@.cursor as int),
            final(self)@.cursor == old(self)@.cursor + 1,
            final(self)@.current == old(self)@.current,
    {
        let (a, b) = self.password_buffer.as_str().split_at(self.cursor_pos);
        let mut s = a.to_string();
        string_push(&mut s, c);
        push_str(&mut s, b);
        self.password_buffer = s;
        self.cursor_pos = self.cursor_pos + 1;
    }

    /// Moves the cursor back one byte and deletes the character that
    /// starts there; nothing at the start.
    pub fn delete_char(&mut self)
        requires
            old(self)@.cursor > 0 ==> at_boundary(old(self)@.password, old(self)@.cursor - 1)
                && old(self)@.cursor - 1 < encode_utf8(old(self)@.password).len(),
        ensures
            old(self)@.cursor > 0 ==> final(self)@.password == chars_before(
                old(self)@.password,
                old(self)@.cursor - 1,
            ) + chars_after(old(self)@.password, old(self)@.cursor - 1).drop_first()
                && final(self)@.cursor == old(self)@.cursor - 1,
            old(self)@.cursor == 0 ==> final(self)@.password == old(self)@.password && final(self)@.cursor
                == 0,
            final(self)@.current == old(self)@.current,
    {
        if self.cursor_pos > 0 {
            let p = self.cursor_pos - 1;
            let (a, b) = self.password_buffer.as_str().split_at(p);
            let rest = to_chars(b);
            proof {
                if b@.len() == 0 {
                    assert(encode_utf8(b@) =~= Seq::<u8>::empty());
                }
            }
            let mut s = a.to_string();
            let tail = from_char_range(rest.as_slice(), 1, rest.len());
            push_str(&mut s, tail.as_str());
            assert(b@.subrange(1, b@.len() as int) =~= b@.drop_first());
            self.password_buffer = s;
            self.cursor_pos = p;
        }
    }

    /// The password's length in bytes (what the dialog masks).
    pub fn password_len(&self) -> (r: usize)
        ensures
            r == encode_utf8(self@.password).len() as usize,
    {
        self.password_buffer.as_str().len()
    }

    /// Whether byte `pos` of the password's encoding starts a character
    /// or ends the password (where it can be edited).
    pub fn is_boundary(&self, pos: usize) -> (r: bool)
        ensures
            r == at_boundary(self@.password, pos as int),
    {
        self.password_buffer.as_str().is_char_boundary(pos)
    }

    /// Hands out the request's id and the password, and clears both; nothing
    /// while the password is empty or no request waits.
    pub fn submit(&mut self) -> (r: Option<(String, String)>)
        ensures
            old(self)@.password.len() == 0 || old(self)@.current is None ==> r is None && final(self)@
                == old(self)@,
            old(self)@.password.len() > 0 && old(self)@.current is Some ==> (r matches Some((id, pw))
                && id@ == old(self)@.current.unwrap().0 && pw@ == old(self)@.password)
                && final(self)@.current is None && final(self)@.password.len() == 0
                && final(self)@.cursor == 0,
    {
        if self.password_buffer.as_str().is_empty() {
            return None;
        }
        let mut taken: Option<PendingSudoRequest> = None;
        std::mem::swap(&mut taken, &mut self.current_request);
        match taken {
            Some(pending) => {
                let mut password = String::new();
                std::mem::swap(&mut password, &mut self.password_buffer);
                self.cursor_pos = 0;
                Some((pending.id, password))
            },
            None => None,
        }
    }

    /// Drops the waiting request, and the password with it; returns the
    /// request's id, or nothing when none waits.
    pub fn cancel(&mut self) -> (r: Option<String>)
        ensures
            old(self)@.current is None ==> r is None && final(self)@ == old(self)@,
            old(self)@.current matches Some(p) ==> (r matches Some(id) && id@ == p.0)
                && final(self)@.current is None && final(self)@.password.len() == 0
                && final(self)@.cursor == 0,
    {
        let mut taken: Option<PendingSudoRequest> = None;
        std::mem::swap(&mut taken, &mut self.current_request);
        match taken {
            Some(pending) => {
                self.password_buffer = String::new();
                self.cursor_pos = 0;
                Some(pending.id)
            },
            None => None,
        }
    }
}

/// Typing a character and then deleting it leaves the password as it was:
/// from a cursor at a character boundary, [`SudoDialogState::insert_char`]
/// (which moves the cursor on by one byte) followed by
/// [`SudoDialogState::delete_char`] is allowed and deletes exactly the
/// character typed.
pub proof fn lemma_delete_undoes_insert(password: Seq<char>, cursor: nat, c: char)
    requires
        at_boundary(password, cursor as int),
    ensures
        ({
            let typed = chars_before(password, cursor as int) + seq![c] + chars_after(password, cursor as int);
            &&& at_boundary(typed, cursor as int)
            &&& (cursor as int) < encode_utf8(typed).len()
            &&& chars_before(typed, cursor as int) + chars_after(typed, cursor as int).drop_first() == password
        }),
{
    broadcast use encode_utf8_valid_utf8, decode_utf8_encode_utf8, valid_utf8_split;

    let bytes = encode_utf8(password);
    let n = cursor as int;
    let a = chars_before(password, n);
    let b = chars_after(password, n);
    valid_utf8_split(bytes, n);
    decode_utf8_split(bytes, n);
    assert(encode_utf8(a) == bytes.subrange(0, n));
    assert(encode_utf8(b) == bytes.subrange(n, bytes.len() as int));
    let typed = a + seq![c] + b;
    assert(typed == a + (seq![c] + b));
    lemma_encode_utf8_concat(a, seq![c] + b);
    lemma_encode_utf8_concat(seq![c], b);
    lemma_boundary_after(a, seq![c] + b);
    let t = encode_utf8(typed);
    assert(encode_utf8(seq![c]).len() > 0) by {
        encode_utf8_first_scalar(seq![c]);
    }
    assert(t.subrange(0, n) =~= encode_utf8(a));
    assert(t.subrange(n, t.len() as int) =~= encode_utf8(seq![c] + b));
    assert(chars_before(typed, n) == a);
    assert(chars_after(typed, n) == seq![c] + b);
    assert((seq![c] + b).drop_first() =~= b);
    assert(decode_utf8(bytes) == password);
    assert(bytes =~= bytes.subrange(0, n) + bytes.subrange(n, bytes.len() as int));
    lemma_encode_utf8_concat(a, b);
    assert(encode_utf8(a + b) == bytes);
    assert(decode_utf8(encode_utf8(a + b)) == a + b);
}

/// What a key does in the sudo dialog.
#[derive(Debug, Clone, Copy, PartialEq, Eq, Structural)]
pub enum SudoKey {
    /// Drop the request and go back to the normal screen
    Cancel,
    /// Send the password and go back to the normal screen
    Submit,
    Insert(char),
    DeleteBackward,
    Nothing,
}

/// Escape cancels; Enter submits a password that is not empty; a character
/// is typed; Backspace deletes.
pub open spec fn sudo_key_spec(password_len: usize, e: Event) -> SudoKey {
    match e {
        Event::Key(k) => if is_escape_spec(k) {
            SudoKey::Cancel
        } else {
            match k.code {
                KeyCode::Enter => if password_len > 0 {
                    SudoKey::Submit
                } else {
                    SudoKey::Nothing
                },
                KeyCode::Char(c) => SudoKey::Insert(c),
                KeyCode::Backspace => SudoKey::DeleteBackward,
                _ => SudoKey::Nothing,
            }
        },
        _ => SudoKey::Nothing,
    }
}

/// What an event does in the sudo dialog, with a password of
/// `password_len` bytes typed.
pub fn sudo_key(password_len: usize, event: &Event) -> (r: SudoKey)
    ensures
        r == sudo_key_spec(password_len, *event),
{
    match event {
        Event::Key(k) => if event.is_escape() {
            SudoKey::Cancel
        } else {
            match k.code {
                KeyCode::Enter => if password_len > 0 {
                    SudoKey::Submit
                } else {
                    SudoKey::Nothing
                },
                KeyCode::Char(c) => SudoKey::Insert(c),
                KeyCode::Backspace => SudoKey::DeleteBackward,
                _ => SudoKey::Nothing,
            }
        },
        _ => SudoKey::Nothing,
    }
}

} // verus!
