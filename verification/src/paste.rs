//! Paste detection for terminals without bracketed paste.
//!
//! Plain characters typed in quick succession are held back; when the
//! burst ends they go out either as one paste (if long enough) or as the
//! individual key presses they were. The terminal reader feeds each input
//! to a [`PasteDetector`] and forwards the events it hands back.
use vstd::prelude::*;
use vstd::utf8::encode_utf8;
use crate::events::{Event, KeyCode, KeyEvent, KeyEventKind, KeyModifiers, MouseEvent};
use crate::text::utf8_len_at_most;

verus! {

/// Characters arriving faster than this many milliseconds apart count as
/// rapid input.
pub const PASTE_CHAR_THRESHOLD_MS: u64 = 15;

/// A burst of at least this many bytes is delivered as a paste.
pub const MIN_PASTE_CHARS: usize = 10;

/// Milliseconds to wait for more input before a held burst is flushed.
pub const PASTE_FLUSH_TIMEOUT_MS: u64 = 100;

/// The key press a held character stands for: a newline was an Enter.
pub open spec fn held_key(c: char) -> KeyEvent {
    KeyEvent {
        code: if c == '\n' { KeyCode::Enter } else { KeyCode::Char(c) },
        modifiers: KeyModifiers { bits: 0 },
        kind: KeyEventKind::Press,
    }
}

/// `out` is what flushing the held characters `held` gives: one paste
/// of them when they take at least [`MIN_PASTE_CHARS`] bytes, else one
/// key press per character (nothing for an empty burst).
pub open spec fn flush_events(held: Seq<char>, out: Seq<Event>) -> bool {
    if encode_utf8(held).len() >= MIN_PASTE_CHARS {
        out.len() == 1 && (out[0] matches Event::Paste(t) && t@ == held)
    } else {
        out.len() == held.len() && forall|i: int|
            0 <= i < held.len() ==> #[trigger] out[i] == Event::Key(held_key(held[i]))
    }
}

/// The text an event stands for when it reaches the input: a paste its
/// text, an Enter a newline, a character key its character.
pub open spec fn event_text(e: Event) -> Seq<char> {
    match e {
        Event::Paste(t) => t@,
        Event::Key(k) => match k.code {
            KeyCode::Enter => seq!['\n'],
            KeyCode::Char(c) => seq![c],
            _ => seq![],
        },
        _ => seq![],
    }
}

/// The text of a run of events, in order.
pub open spec fn events_text(out: Seq<Event>) -> Seq<char>
    decreases out.len(),
{
    if out.len() == 0 {
        seq![]
    } else {
        events_text(out.drop_last()) + event_text(out.last())
    }
}

/// Whether a burst comes out as a paste or as key presses, the input
/// receives exactly the characters held, in order.
pub proof fn lemma_flush_keeps_text(held: Seq<char>, out: Seq<Event>)
    requires
        flush_events(held, out),
    ensures
        events_text(out) == held,
{
    if encode_utf8(held).len() >= MIN_PASTE_CHARS {
        assert(out.drop_last() =~= seq![]);
        assert(events_text(out.drop_last()) =~= seq![]);
        assert(events_text(out) =~= held);
    } else {
        lemma_keys_text(held, out, out.len() as int);
        assert(out.take(out.len() as int) =~= out);
        assert(held.take(held.len() as int) =~= held);
    }
}

proof fn lemma_keys_text(held: Seq<char>, out: Seq<Event>, i: int)
    requires
        0 <= i <= out.len(),
        out.len() == held.len(),
        forall|j: int| 0 <= j < held.len() ==> #[trigger] out[j] == Event::Key(held_key(held[j])),
    ensures
        events_text(out.take(i)) == held.take(i),
    decreases i,
{
    if i == 0 {
        assert(out.take(0) =~= seq![]);
        assert(held.take(0) =~= seq![]);
    } else {
        lemma_keys_text(held, out, i - 1);
        assert(out.take(i).drop_last() =~= out.take(i - 1));
        assert(out.take(i).last() == out[i - 1]);
        assert(out[i - 1] == Event::Key(held_key(held[i - 1])));
        assert(event_text(out[i - 1]) =~= seq![held[i - 1]]);
        assert(held.take(i) =~= held.take(i - 1).push(held[i - 1]));
    }
}

/// The character a key press adds to the burst, if it is held back:
/// a character typed without control or alt, or an Enter while a burst
/// is already held.
pub open spec fn held_char(held: Seq<char>, key: KeyEvent) -> Option<char> {
    match key.code {
        KeyCode::Char(c) => if key.modifiers.bits & 6u8 == 0 { Some(c) } else { None },
        KeyCode::Enter => if held.len() > 0 { Some('\n') } else { None },
        _ => None,
    }
}

/// The characters held back so far.
pub struct PasteDetector {
    pub held: Vec<char>,
}

/// Whether `held` takes at least [`MIN_PASTE_CHARS`] bytes.
fn is_paste_sized(held: &[char]) -> (r: bool)
    ensures
        r == (encode_utf8(held@).len() >= MIN_PASTE_CHARS),
{
    !utf8_len_at_most(held, MIN_PASTE_CHARS - 1)
}

impl PasteDetector {
    /// Nothing held.
    pub fn new() -> (r: PasteDetector)
        ensures
            r.held@.len() == 0,
    {
        PasteDetector { held: Vec::new() }
    }

    /// Whether a burst is being held.
    pub fn is_holding(&self) -> (r: bool)
        ensures
            r == (self.held@.len() > 0),
    {
        self.held.len() > 0
    }

    /// Hands out the held burst (see [`flush_events`]) and forgets it.
    pub fn flush(&mut self) -> (r: Vec<Event>)
        ensures
            final(self).held@.len() == 0,
            flush_events(old(self).held@, r@),
    {
        let mut out: Vec<Event> = Vec::new();
        if is_paste_sized(self.held.as_slice()) {
            let mut text = String::new();
            let mut i: usize = 0;
            while i < self.held.len()
                invariant
                    i <= self.held@.len(),
                    text@ == self.held@.take(i as int),
                decreases self.held@.len() - i,
            {
                let c = self.held[i];
                crate::text::string_push(&mut text, c);
                assert(self.held@.take(i as int).push(c) =~= self.held@.take(i + 1));
                i = i + 1;
            }
            assert(self.held@.take(self.held@.len() as int) =~= self.held@);
            out.push(Event::Paste(text));
        } else {
            let mut i: usize = 0;
            while i < self.held.len()
                invariant
                    i <= self.held@.len(),
                    out@.len() == i,
                    forall|j: int| 0 <= j < i ==> #[trigger] out@[j] == Event::Key(held_key(self.held@[j])),
                decreases self.held@.len() - i,
            {
                let c = self.held[i];
                let code = if c == '\n' { KeyCode::Enter } else { KeyCode::Char(c) };
                out.push(Event::Key(KeyEvent::new(code, KeyModifiers::none())));
                i = i + 1;
            }
        }
        self.held = Vec::new();
        out
    }

    /// A key press: a plain character (or an Enter inside a burst) is held
    /// back and nothing goes out; any other key first flushes the burst,
    /// then goes out itself.
    pub fn on_key(&mut self, key: KeyEvent) -> (r: Vec<Event>)
        ensures
            match held_char(old(self).held@, key) {
                Some(c) => final(self).held@ == old(self).held@.push(c) && r@.len() == 0,
                None => {
                    &&& final(self).held@.len() == 0
                    &&& r@.len() >= 1
                    &&& flush_events(old(self).held@, r@.drop_last())
                    &&& r@.last() == Event::Key(key)
                },
            },
    {
        let held = match key.code {
            KeyCode::Char(c) => if key.modifiers.bits & 6u8 == 0 { Some(c) } else { None },
            KeyCode::Enter => if self.held.len() > 0 { Some('\n') } else { None },
            _ => None,
        };
        match held {
            Some(c) => {
                self.held.push(c);
                Vec::new()
            },
            None => {
                let mut out = self.flush();
                let ghost flushed = out@;
                out.push(Event::Key(key));
                assert(out@.drop_last() =~= flushed);
                out
            },
        }
    }

    /// A mouse event flushes the burst, then goes out itself.
    pub fn on_mouse(&mut self, mouse: MouseEvent) -> (r: Vec<Event>)
        ensures
            final(self).held@.len() == 0,
            r@.len() >= 1,
            flush_events(old(self).held@, r@.drop_last()),
            r@.last() == Event::Mouse(mouse),
    {
        let mut out = self.flush();
        let ghost flushed = out@;
        out.push(Event::Mouse(mouse));
        assert(out@.drop_last() =~= flushed);
        out
    }

    /// A bracketed paste drops the held burst and goes out as it came.
    pub fn on_paste(&mut self, text: String) -> (r: Vec<Event>)
        ensures
            final(self).held@.len() == 0,
            r@.len() == 1,
            r@[0] matches Event::Paste(t) && t@ == text@,
    {
        self.held = Vec::new();
        let mut out: Vec<Event> = Vec::new();
        out.push(Event::Paste(text));
        out
    }

    /// A resize goes out at once; the burst stays held.
    pub fn on_resize(&self, width: u16, height: u16) -> (r: Vec<Event>)
        ensures
            r@ == seq![Event::Resize(width, height)],
    {
        let mut out: Vec<Event> = Vec::new();
        out.push(Event::Resize(width, height));
        out
    }

    /// A redraw tick goes out only while no burst is held (a held burst
    /// is still waiting for more input).
    pub fn on_tick(&self) -> (r: Vec<Event>)
        ensures
            self.held@.len() == 0 ==> r@ == seq![Event::Tick],
            self.held@.len() > 0 ==> r@.len() == 0,
    {
        let mut out: Vec<Event> = Vec::new();
        if self.held.len() == 0 {
            out.push(Event::Tick);
        }
        out
    }
}

} // verus!
