//! User-configurable keybindings for the top-level global shortcuts.
//!
//! Settings map action names (such as `console_view`) to key specs (such as
//! `Ctrl+K`); actions that are not configured keep their built-in binding.
use vstd::prelude::*;
use crate::events::{key_of, Event, KeyCode, KeyEvent, KeyModifiers};
use crate::text::{
    ascii_lower, ascii_lower_seq, eq_ignore_ascii_case, eq_ignore_case_str, parse_usize, parse_usize_spec,
    split_char, split_on_char, str_eq, to_ascii_lowercase, to_chars, trim, trim_chars,
    lemma_split_char_nonempty,
};

verus! {

broadcast use vstd::string::group_string_axioms;

/// A parsed key spec: a key and its modifiers.
pub type KeyBinding = (KeyCode, KeyModifiers);

// ---------------------------------------------------------------------------
// Key specs
// ---------------------------------------------------------------------------

/// The modifier flag a modifier name stands for (case-insensitive).
pub open spec fn modifier_bits(m: Seq<char>) -> Option<u8> {
    if eq_ignore_ascii_case(m, "ctrl"@) || eq_ignore_ascii_case(m, "control"@) {
        Some(2u8)
    } else if eq_ignore_ascii_case(m, "alt"@) || eq_ignore_ascii_case(m, "meta"@) {
        Some(4u8)
    } else if eq_ignore_ascii_case(m, "shift"@) {
        Some(1u8)
    } else {
        None
    }
}

/// The union of the modifiers named by `ms` (each trimmed), or `None` if
/// any name is unknown.
pub open spec fn fold_modifiers(ms: Seq<Seq<char>>) -> Option<u8>
    decreases ms.len(),
{
    if ms.len() == 0 {
        Some(0u8)
    } else {
        match (fold_modifiers(ms.drop_last()), modifier_bits(trim(ms.last()))) {
            (Some(a), Some(b)) => Some(a | b),
            _ => None,
        }
    }
}

/// The key a key name stands for: a named key (case-insensitive), a
/// function key `F1`..`F24`, or a single character (ASCII-lowercased).
pub open spec fn key_code_spec(k: Seq<char>) -> Option<KeyCode> {
    if eq_ignore_ascii_case(k, "esc"@) || eq_ignore_ascii_case(k, "escape"@) {
        Some(KeyCode::Esc)
    } else if eq_ignore_ascii_case(k, "enter"@) || eq_ignore_ascii_case(k, "return"@) {
        Some(KeyCode::Enter)
    } else if eq_ignore_ascii_case(k, "tab"@) {
        Some(KeyCode::Tab)
    } else if eq_ignore_ascii_case(k, "space"@) {
        Some(KeyCode::Char(' '))
    } else if eq_ignore_ascii_case(k, "backspace"@) {
        Some(KeyCode::Backspace)
    } else if eq_ignore_ascii_case(k, "delete"@) {
        Some(KeyCode::Delete)
    } else if eq_ignore_ascii_case(k, "up"@) {
        Some(KeyCode::Up)
    } else if eq_ignore_ascii_case(k, "down"@) {
        Some(KeyCode::Down)
    } else if eq_ignore_ascii_case(k, "left"@) {
        Some(KeyCode::Left)
    } else if eq_ignore_ascii_case(k, "right"@) {
        Some(KeyCode::Right)
    } else if eq_ignore_ascii_case(k, "home"@) {
        Some(KeyCode::Home)
    } else if eq_ignore_ascii_case(k, "end"@) {
        Some(KeyCode::End)
    } else if eq_ignore_ascii_case(k, "pageup"@) {
        Some(KeyCode::PageUp)
    } else if eq_ignore_ascii_case(k, "pagedown"@) {
        Some(KeyCode::PageDown)
    } else if k.len() >= 2 && (k[0] == 'F' || k[0] == 'f') {
        match parse_usize_spec(k.drop_first()) {
            Some(n) => if 1 <= n <= 24 {
                Some(KeyCode::F(n as u8))
            } else {
                None
            },
            None => None,
        }
    } else if k.len() == 1 {
        Some(KeyCode::Char(ascii_lower(k[0])))
    } else {
        None
    }
}

/// What `parse_key_spec` returns for a spec string: the trimmed spec is
/// split at `+`; the last piece is the key, the others are modifiers.
pub open spec fn parse_key_spec_spec(spec: Seq<char>) -> Option<KeyBinding> {
    let t = trim(spec);
    if t.len() == 0 {
        None
    } else {
        let parts = split_char(t, '+');
        match fold_modifiers(parts.drop_last()) {
            Some(bits) => match key_code_spec(trim(parts.last())) {
                Some(c) => Some((c, KeyModifiers { bits })),
                None => None,
            },
            None => None,
        }
    }
}

fn modifier_bits_of(m: &[char]) -> (r: Option<u8>)
    ensures
        r == modifier_bits(m@),
{
    if eq_ignore_case_str(m, "ctrl") || eq_ignore_case_str(m, "control") {
        Some(2u8)
    } else if eq_ignore_case_str(m, "alt") || eq_ignore_case_str(m, "meta") {
        Some(4u8)
    } else if eq_ignore_case_str(m, "shift") {
        Some(1u8)
    } else {
        None
    }
}

fn key_code_of(k: &[char]) -> (r: Option<KeyCode>)
    ensures
        r == key_code_spec(k@),
{
    if eq_ignore_case_str(k, "esc") || eq_ignore_case_str(k, "escape") {
        Some(KeyCode::Esc)
    } else if eq_ignore_case_str(k, "enter") || eq_ignore_case_str(k, "return") {
        Some(KeyCode::Enter)
    } else if eq_ignore_case_str(k, "tab") {
        Some(KeyCode::Tab)
    } else if eq_ignore_case_str(k, "space") {
        Some(KeyCode::Char(' '))
    } else if eq_ignore_case_str(k, "backspace") {
        Some(KeyCode::Backspace)
    } else if eq_ignore_case_str(k, "delete") {
        Some(KeyCode::Delete)
    } else if eq_ignore_case_str(k, "up") {
        Some(KeyCode::Up)
    } else if eq_ignore_case_str(k, "down") {
        Some(KeyCode::Down)
    } else if eq_ignore_case_str(k, "left") {
        Some(KeyCode::Left)
    } else if eq_ignore_case_str(k, "right") {
        Some(KeyCode::Right)
    } else if eq_ignore_case_str(k, "home") {
        Some(KeyCode::Home)
    } else if eq_ignore_case_str(k, "end") {
        Some(KeyCode::End)
    } else if eq_ignore_case_str(k, "pageup") {
        Some(KeyCode::PageUp)
    } else if eq_ignore_case_str(k, "pagedown") {
        Some(KeyCode::PageDown)
    } else if k.len() >= 2 && (k[0] == 'F' || k[0] == 'f') {
        let mut rest: Vec<char> = Vec::new();
        let mut i: usize = 1;
        while i < k.len()
            invariant
                1 <= i <= k@.len(),
                rest@ == k@.subrange(1, i as int),
            decreases k@.len() - i,
        {
            rest.push(k[i]);
            assert(k@.subrange(1, i as int).push(k@[i as int]) =~= k@.subrange(1, i + 1));
            i = i + 1;
        }
        assert(rest@ =~= k@.drop_first());
        match parse_usize(rest.as_slice()) {
            Some(n) => if 1 <= n && n <= 24 {
                Some(KeyCode::F(n as u8))
            } else {
                None
            },
            None => None,
        }
    } else if k.len() == 1 {
        Some(KeyCode::Char(to_ascii_lowercase(k[0])))
    } else {
        None
    }
}

/// Parse `"Ctrl+D"`, `"Alt+Shift+F4"`, `"Esc"`, `"F1"`, etc. into a key and
/// modifiers. Case-insensitive on modifier and named key names;
/// single-character keys are lowercased.
pub fn parse_key_spec(spec: &str) -> (r: Option<KeyBinding>)
    ensures
        r == parse_key_spec_spec(spec@),
{
    let chars = to_chars(spec);
    let t = trim_chars(chars.as_slice());
    if t.len() == 0 {
        return None;
    }
    let parts = split_on_char(t.as_slice(), '+');
    proof {
        lemma_split_char_nonempty(t@, '+');
    }
    let ghost ps = split_char(t@, '+');
    let last = parts.len() - 1;
    let mut bits: u8 = 0;
    let mut i: usize = 0;
    assert(ps.drop_last().take(0) =~= seq![]);
    while i < last
        invariant
            t@ == trim(spec@),
            t@.len() > 0,
            ps == split_char(t@, '+'),
            last == ps.len() - 1,
            parts@.len() == ps.len(),
            forall|k: int| 0 <= k < parts@.len() ==> #[trigger] parts@[k]@ == ps[k],
            i <= last,
            fold_modifiers(ps.drop_last().take(i as int)) == Some(bits),
        decreases last - i,
    {
        let m = trim_chars(parts[i].as_slice());
        assert(ps.drop_last().take(i + 1).drop_last() =~= ps.drop_last().take(i as int));
        assert(ps.drop_last().take(i + 1).last() == ps[i as int]);
        match modifier_bits_of(m.as_slice()) {
            Some(b) => {
                bits = bits | b;
            },
            None => {
                proof {
                    assert(m@ == trim(ps.drop_last().take(i + 1).last()));
                    assert(fold_modifiers(ps.drop_last().take(i + 1)) is None);
                    lemma_fold_none_extends(ps.drop_last(), i as int + 1);
                }
                return None;
            },
        }
        i = i + 1;
    }
    assert(ps.drop_last().take(last as int) =~= ps.drop_last());
    let key = trim_chars(parts[last].as_slice());
    match key_code_of(key.as_slice()) {
        Some(c) => Some((c, KeyModifiers { bits })),
        None => None,
    }
}

proof fn lemma_fold_none_extends(ms: Seq<Seq<char>>, j: int)
    requires
        0 <= j <= ms.len(),
        fold_modifiers(ms.take(j)) is None,
    ensures
        fold_modifiers(ms) is None,
    decreases ms.len() - j,
{
    if j < ms.len() {
        assert(ms.take(j + 1).drop_last() =~= ms.take(j));
        lemma_fold_none_extends(ms, j + 1);
    } else {
        assert(ms.take(j) =~= ms);
    }
}

} // verus!

verus! {

// ---------------------------------------------------------------------------
// String-to-string settings table
// ---------------------------------------------------------------------------

pub open spec fn pairs_view(e: Seq<(String, String)>) -> Seq<(Seq<char>, Seq<char>)> {
    e.map_values(|p: (String, String)| (p.0@, p.1@))
}

/// The map a sequence of insertions builds: later pairs win.
pub open spec fn fold_pairs(e: Seq<(Seq<char>, Seq<char>)>) -> Map<Seq<char>, Seq<char>>
    decreases e.len(),
{
    if e.len() == 0 {
        Map::empty()
    } else {
        fold_pairs(e.drop_last()).insert(e.last().0, e.last().1)
    }
}

proof fn lemma_fold_pairs_append(a: Seq<(Seq<char>, Seq<char>)>, b: Seq<(Seq<char>, Seq<char>)>)
    ensures
        fold_pairs(a + b) == fold_pairs(a).union_prefer_right(fold_pairs(b)),
    decreases b.len(),
{
    if b.len() == 0 {
        assert(a + b =~= a);
        assert(fold_pairs(a).union_prefer_right(fold_pairs(b)) =~= fold_pairs(a));
    } else {
        lemma_fold_pairs_append(a, b.drop_last());
        assert((a + b).drop_last() =~= a + b.drop_last());
        assert(fold_pairs(a + b) =~= fold_pairs(a).union_prefer_right(fold_pairs(b)));
    }
}

/// Lemma: keys that do not occur in `e[j..]` keep the value of `e[..j]`.
proof fn lemma_fold_pairs_tail_absent(e: Seq<(Seq<char>, Seq<char>)>, j: int, k: Seq<char>)
    requires
        0 <= j <= e.len(),
        forall|i: int| j <= i < e.len() ==> e[i].0 != k,
    ensures
        fold_pairs(e).contains_key(k) == fold_pairs(e.take(j)).contains_key(k),
        fold_pairs(e).contains_key(k) ==> fold_pairs(e)[k] == fold_pairs(e.take(j))[k],
    decreases e.len() - j,
{
    if j < e.len() {
        lemma_fold_pairs_tail_absent(e.drop_last(), j, k);
        assert(e.drop_last().take(j) =~= e.take(j));
    } else {
        assert(e.take(j) =~= e);
    }
}

/// A table from strings to strings (the settings' `global` section).
/// Insertions are kept in order; a later insertion of a key wins.
#[derive(Debug, Clone)]
pub struct StringMap {
    entries: Vec<(String, String)>,
}

impl View for StringMap {
    type V = Map<Seq<char>, Seq<char>>;

    closed spec fn view(&self) -> Map<Seq<char>, Seq<char>> {
        fold_pairs(pairs_view(self.entries@))
    }
}

impl StringMap {
    /// An empty table.
    pub fn new() -> (r: StringMap)
        ensures
            r@ == Map::<Seq<char>, Seq<char>>::empty(),
    {
        let r = StringMap { entries: Vec::new() };
        assert(pairs_view(r.entries@) =~= seq![]);
        r
    }

    /// The value stored for `key`.
    pub fn get(&self, key: &str) -> (r: Option<&String>)
        ensures
            match r {
                Some(v) => self@.contains_key(key@) && v@ == self@[key@],
                None => !self@.contains_key(key@),
            },
    {
        let ghost e = pairs_view(self.entries@);
        let mut i = self.entries.len();
        while i > 0
            invariant
                i <= self.entries@.len(),
                e == pairs_view(self.entries@),
                forall|m: int| i <= m < e.len() ==> e[m].0 != key@,
            decreases i,
        {
            if str_eq(self.entries[i - 1].0.as_str(), key) {
                proof {
                    lemma_fold_pairs_tail_absent(e, i as int, key@);
                    assert(e.take(i as int).drop_last() =~= e.take(i - 1));
                }
                return Some(&self.entries[i - 1].1);
            }
            i = i - 1;
        }
        proof {
            lemma_fold_pairs_tail_absent(e, 0, key@);
        }
        None
    }

    /// Stores `value` for `key`, returning the value it replaces.
    pub fn insert(&mut self, key: String, value: String) -> (r: Option<String>)
        ensures
            final(self)@ == old(self)@.insert(key@, value@),
            match r {
                Some(v) => old(self)@.contains_key(key@) && v@ == old(self)@[key@],
                None => !old(self)@.contains_key(key@),
            },
    {
        let prev = match self.get(key.as_str()) {
            Some(v) => Some(v.clone()),
            None => None,
        };
        let ghost before = self.entries@;
        self.entries.push((key, value));
        assert(pairs_view(self.entries@).drop_last() =~= pairs_view(before));
        prev
    }

    /// Whether `key` has a value.
    pub fn contains_key(&self, key: &str) -> (r: bool)
        ensures
            r == self@.contains_key(key@),
    {
        self.get(key).is_some()
    }

    /// The insertions, oldest first (a later pair for the same key wins).
    pub fn pairs(&self) -> (r: &[(String, String)])
        ensures
            fold_pairs(pairs_view(r@)) == self@,
    {
        self.entries.as_slice()
    }

    /// Inserts every pair of `other`; on a shared key `other` wins.
    pub fn extend_from(&mut self, other: StringMap)
        ensures
            final(self)@ == old(self)@.union_prefer_right(other@),
    {
        let ghost a = pairs_view(self.entries@);
        let ghost b = pairs_view(other.entries@);
        let mut i: usize = 0;
        let n = other.entries.len();
        let mut rest = other.entries;
        assert(b.take(0) =~= seq![]);
        assert(a + b.take(0) =~= a);
        while i < n
            invariant
                n == rest@.len(),
                b == pairs_view(rest@),
                i <= n,
                pairs_view(self.entries@) == a + b.take(i as int),
            decreases n - i,
        {
            let k = rest[i].0.clone();
            let v = rest[i].1.clone();
            assert((k@, v@) == b[i as int]);
            let ghost before = self.entries@;
            self.entries.push((k, v));
            assert(pairs_view(self.entries@) =~= pairs_view(before).push(b[i as int]));
            assert(b.take(i + 1) =~= b.take(i as int).push(b[i as int]));
            assert(pairs_view(self.entries@) =~= a + b.take(i + 1));
            i = i + 1;
        }
        assert(b.take(n as int) =~= b);
        proof {
            lemma_fold_pairs_append(a, b);
        }
    }
}

impl Default for StringMap {
    fn default() -> (r: StringMap)
        ensures
            r@ == Map::<Seq<char>, Seq<char>>::empty(),
    {
        StringMap::new()
    }
}

/// The `keybindings` section of the settings: action name to key spec.
#[derive(Debug, Clone)]
pub struct Keybindings {
    /// Map from action name (e.g. `"console_view"`) to key spec
    /// (e.g. `"Ctrl+D"`). Parsing happens when the map is built in
    /// [`KeybindingMap::from_settings`].
    pub global: StringMap,
}

impl Default for Keybindings {
    fn default() -> (r: Keybindings)
        ensures
            r.global@ == Map::<Seq<char>, Seq<char>>::empty(),
    {
        Keybindings { global: StringMap::new() }
    }
}

impl Keybindings {
    /// Merge `other` into `self` — per-action `other` wins on key collision.
    pub fn merge(&mut self, other: Keybindings)
        ensures
            final(self).global@ == old(self).global@.union_prefer_right(other.global@),
    {
        self.global.extend_from(other.global);
    }
}

// ---------------------------------------------------------------------------
// The resolved binding table
// ---------------------------------------------------------------------------

/// The actions with a configurable binding, in table order.
pub open spec fn action_name(i: int) -> Seq<char> {
    if i == 0 {
        "console_view"@
    } else if i == 1 {
        "plan_mode_toggle"@
    } else if i == 2 {
        "task_viewer"@
    } else if i == 3 {
        "reverse_search"@
    } else if i == 4 {
        "sub_agent_viewer"@
    } else {
        "file_explorer"@
    }
}

/// The built-in binding of each action.
pub open spec fn default_binding(i: int) -> KeyBinding {
    if i == 0 {
        (KeyCode::Char('d'), KeyModifiers { bits: 2 })
    } else if i == 1 {
        (KeyCode::Char('p'), KeyModifiers { bits: 2 })
    } else if i == 2 {
        (KeyCode::Char('t'), KeyModifiers { bits: 2 })
    } else if i == 3 {
        (KeyCode::Char('r'), KeyModifiers { bits: 2 })
    } else if i == 4 {
        (KeyCode::Char('b'), KeyModifiers { bits: 2 })
    } else {
        (KeyCode::Char('f'), KeyModifiers { bits: 6 })
    }
}

/// Number of configurable actions.
pub open spec fn action_count() -> int {
    6
}

proof fn lemma_action_names_distinct()
    ensures
        forall|i: int, j: int|
            0 <= i < action_count() && 0 <= j < action_count() && i != j ==> action_name(i)
                != action_name(j),
{
    reveal_strlit("console_view");
    reveal_strlit("plan_mode_toggle");
    reveal_strlit("task_viewer");
    reveal_strlit("reverse_search");
    reveal_strlit("sub_agent_viewer");
    reveal_strlit("file_explorer");
    assert("console_view"@[0] != "plan_mode_toggle"@[0]);
    assert("console_view"@[0] != "task_viewer"@[0]);
    assert("console_view"@[0] != "reverse_search"@[0]);
    assert("console_view"@[0] != "sub_agent_viewer"@[0]);
    assert("console_view"@[0] != "file_explorer"@[0]);
    assert("plan_mode_toggle"@[0] != "task_viewer"@[0]);
    assert("plan_mode_toggle"@[0] != "reverse_search"@[0]);
    assert("plan_mode_toggle"@[0] != "sub_agent_viewer"@[0]);
    assert("plan_mode_toggle"@[0] != "file_explorer"@[0]);
    assert("task_viewer"@[0] != "reverse_search"@[0]);
    assert("task_viewer"@[0] != "sub_agent_viewer"@[0]);
    assert("task_viewer"@[0] != "file_explorer"@[0]);
    assert("reverse_search"@[0] != "sub_agent_viewer"@[0]);
    assert("reverse_search"@[0] != "file_explorer"@[0]);
    assert("sub_agent_viewer"@[0] != "file_explorer"@[0]);
}

/// The binding an action gets from the settings: the parsed user spec when
/// the action is configured and its spec parses, else the built-in one.
pub open spec fn configured_binding(cfg: Option<Map<Seq<char>, Seq<char>>>, i: int) -> KeyBinding {
    match cfg {
        Some(m) => if m.contains_key(action_name(i)) && parse_key_spec_spec(m[action_name(i)]) is Some {
            parse_key_spec_spec(m[action_name(i)])->0
        } else {
            default_binding(i)
        },
        None => default_binding(i),
    }
}

/// A resolved keybinding table, built from defaults and optional user
/// overrides.
#[derive(Debug)]
pub struct KeybindingMap {
    bindings: Vec<(String, KeyBinding)>,
}

impl KeybindingMap {
    #[verifier::type_invariant]
    spec fn wf(self) -> bool {
        &&& self.bindings@.len() == action_count()
        &&& forall|i: int| 0 <= i < action_count() ==> #[trigger] self.bindings@[i].0@ == action_name(i)
    }

    /// The binding of the `i`-th action.
    pub closed spec fn binding(self, i: int) -> KeyBinding {
        self.bindings@[i].1
    }

    /// The binding of `action`, if it is a known action.
    pub open spec fn lookup(self, action: Seq<char>) -> Option<KeyBinding> {
        if exists|i: int| 0 <= i < action_count() && action_name(i) == action {
            Some(self.binding(choose|i: int| 0 <= i < action_count() && action_name(i) == action))
        } else {
            None
        }
    }
}

fn default_entry(i: usize) -> (r: (String, KeyBinding))
    requires
        i < 6,
    ensures
        r.0@ == action_name(i as int),
        r.1 == default_binding(i as int),
{
    if i == 0 {
        ("console_view".to_string(), (KeyCode::Char('d'), KeyModifiers { bits: 2 }))
    } else if i == 1 {
        ("plan_mode_toggle".to_string(), (KeyCode::Char('p'), KeyModifiers { bits: 2 }))
    } else if i == 2 {
        ("task_viewer".to_string(), (KeyCode::Char('t'), KeyModifiers { bits: 2 }))
    } else if i == 3 {
        ("reverse_search".to_string(), (KeyCode::Char('r'), KeyModifiers { bits: 2 }))
    } else if i == 4 {
        ("sub_agent_viewer".to_string(), (KeyCode::Char('b'), KeyModifiers { bits: 2 }))
    } else {
        ("file_explorer".to_string(), (KeyCode::Char('f'), KeyModifiers { bits: 6 }))
    }
}

impl KeybindingMap {
    /// Build a map from the `Keybindings` settings section (if any).
    /// Unknown actions are ignored; unparseable specs keep the default.
    pub fn from_settings(cfg: Option<&Keybindings>) -> (r: KeybindingMap)
        ensures
            forall|i: int|
                0 <= i < action_count() ==> #[trigger] r.binding(i) == configured_binding(
                    match cfg {
                        Some(c) => Some(c.global@),
                        None => None,
                    },
                    i,
                ),
    {
        let ghost m = match cfg {
            Some(c) => Some(c.global@),
            None => None::<Map<Seq<char>, Seq<char>>>,
        };
        let mut bindings: Vec<(String, KeyBinding)> = Vec::new();
        let mut i: usize = 0;
        while i < 6
            invariant
                i <= 6,
                m == match cfg {
                    Some(c) => Some(c.global@),
                    None => None,
                },
                bindings@.len() == i,
                forall|k: int| 0 <= k < i ==> #[trigger] bindings@[k].0@ == action_name(k),
                forall|k: int| 0 <= k < i ==> #[trigger] bindings@[k].1 == configured_binding(m, k),
            decreases 6 - i,
        {
            let (name, default) = default_entry(i);
            let mut kb = default;
            match cfg {
                Some(c) => match c.global.get(name.as_str()) {
                    Some(spec) => match parse_key_spec(spec.as_str()) {
                        Some(p) => {
                            kb = p;
                        },
                        None => {},
                    },
                    None => {},
                },
                None => {},
            }
            bindings.push((name, kb));
            i = i + 1;
        }
        KeybindingMap { bindings }
    }

    /// Does `event` match the key bound to `action`?
    pub fn matches(&self, action: &str, event: &Event) -> (r: bool)
        ensures
            r == match self.lookup(action@) {
                Some(b) => match key_of(*event) {
                    Some(k) => k.code == b.0 && k.modifiers == b.1,
                    None => false,
                },
                None => false,
            },
    {
        proof {
            use_type_invariant(self);
            lemma_action_names_distinct();
        }
        let mut i: usize = 0;
        while i < self.bindings.len()
            invariant
                self.bindings@.len() == action_count(),
                forall|k: int| 0 <= k < action_count() ==> #[trigger] self.bindings@[k].0@ == action_name(k),
                i <= 6,
                forall|k: int| 0 <= k < i ==> action_name(k) != action@,
            decreases 6 - i,
        {
            if str_eq(self.bindings[i].0.as_str(), action) {
                proof {
                    let c = choose|j: int| 0 <= j < action_count() && action_name(j) == action@;
                    lemma_action_names_distinct();
                    assert(c == i);
                }
                let (code, mods) = self.bindings[i].1;
                return match event {
                    Event::Key(k) => k.code == code && k.modifiers == mods,
                    _ => false,
                };
            }
            i = i + 1;
        }
        false
    }

    /// Every action name known to this map, sorted.
    pub fn action_names(&self) -> (r: Vec<&str>)
        ensures
            r@.map_values(|s: &str| s@) == seq![
                "console_view"@,
                "file_explorer"@,
                "plan_mode_toggle"@,
                "reverse_search"@,
                "sub_agent_viewer"@,
                "task_viewer"@,
            ],
    {
        proof {
            use_type_invariant(self);
        }
        let mut v: Vec<&str> = Vec::new();
        v.push(self.bindings[0].0.as_str());
        v.push(self.bindings[5].0.as_str());
        v.push(self.bindings[1].0.as_str());
        v.push(self.bindings[3].0.as_str());
        v.push(self.bindings[4].0.as_str());
        v.push(self.bindings[2].0.as_str());
        assert(v@.map_values(|s: &str| s@) =~= seq![
            "console_view"@,
            "file_explorer"@,
            "plan_mode_toggle"@,
            "reverse_search"@,
            "sub_agent_viewer"@,
            "task_viewer"@,
        ]);
        v
    }
}

impl Clone for KeybindingMap {
    fn clone(&self) -> (r: KeybindingMap)
        ensures
            forall|i: int| 0 <= i < action_count() ==> #[trigger] r.binding(i) == self.binding(i),
    {
        proof {
            use_type_invariant(self);
        }
        let mut bindings: Vec<(String, KeyBinding)> = Vec::new();
        let mut i: usize = 0;
        while i < 6
            invariant
                i <= 6,
                self.bindings@.len() == action_count(),
                forall|k: int| 0 <= k < action_count() ==> #[trigger] self.bindings@[k].0@ == action_name(k),
                bindings@.len() == i,
                forall|k: int| 0 <= k < i ==> #[trigger] bindings@[k].0@ == action_name(k),
                forall|k: int| 0 <= k < i ==> #[trigger] bindings@[k].1 == self.bindings@[k].1,
            decreases 6 - i,
        {
            let name = self.bindings[i].0.clone();
            let kb = self.bindings[i].1;
            bindings.push((name, kb));
            i = i + 1;
        }
        KeybindingMap { bindings }
    }
}

impl Default for KeybindingMap {
    fn default() -> (r: KeybindingMap)
        ensures
            forall|i: int| 0 <= i < action_count() ==> #[trigger] r.binding(i) == default_binding(i),
    {
        KeybindingMap::from_settings(None)
    }
}

} // verus!

verus! {

// ---------------------------------------------------------------------------
// Key specs ignore case
// ---------------------------------------------------------------------------

proof fn lemma_modifier_bits_lower(m: Seq<char>)
    ensures
        modifier_bits(crate::text::ascii_lower_seq(m)) == modifier_bits(m),
{
    crate::text::lemma_eq_ignore_case_lower(m, "ctrl"@);
    crate::text::lemma_eq_ignore_case_lower(m, "control"@);
    crate::text::lemma_eq_ignore_case_lower(m, "alt"@);
    crate::text::lemma_eq_ignore_case_lower(m, "meta"@);
    crate::text::lemma_eq_ignore_case_lower(m, "shift"@);
}

proof fn lemma_fold_modifiers_lower(ms: Seq<Seq<char>>)
    ensures
        fold_modifiers(ms.map_values(|p: Seq<char>| crate::text::ascii_lower_seq(p))) == fold_modifiers(ms),
    decreases ms.len(),
{
    let lms = ms.map_values(|p: Seq<char>| crate::text::ascii_lower_seq(p));
    if ms.len() > 0 {
        assert(lms.drop_last() =~= ms.drop_last().map_values(|p: Seq<char>| crate::text::ascii_lower_seq(p)));
        lemma_fold_modifiers_lower(ms.drop_last());
        crate::text::lemma_trim_ascii_lower(ms.last());
        assert(lms.last() == crate::text::ascii_lower_seq(ms.last()));
        lemma_modifier_bits_lower(trim(ms.last()));
    }
}

proof fn lemma_key_code_lower(k: Seq<char>)
    ensures
        key_code_spec(crate::text::ascii_lower_seq(k)) == key_code_spec(k),
{
    let l = crate::text::ascii_lower_seq(k);
    crate::text::lemma_eq_ignore_case_lower(k, "esc"@);
    crate::text::lemma_eq_ignore_case_lower(k, "escape"@);
    crate::text::lemma_eq_ignore_case_lower(k, "enter"@);
    crate::text::lemma_eq_ignore_case_lower(k, "return"@);
    crate::text::lemma_eq_ignore_case_lower(k, "tab"@);
    crate::text::lemma_eq_ignore_case_lower(k, "space"@);
    crate::text::lemma_eq_ignore_case_lower(k, "backspace"@);
    crate::text::lemma_eq_ignore_case_lower(k, "delete"@);
    crate::text::lemma_eq_ignore_case_lower(k, "up"@);
    crate::text::lemma_eq_ignore_case_lower(k, "down"@);
    crate::text::lemma_eq_ignore_case_lower(k, "left"@);
    crate::text::lemma_eq_ignore_case_lower(k, "right"@);
    crate::text::lemma_eq_ignore_case_lower(k, "home"@);
    crate::text::lemma_eq_ignore_case_lower(k, "end"@);
    crate::text::lemma_eq_ignore_case_lower(k, "pageup"@);
    crate::text::lemma_eq_ignore_case_lower(k, "pagedown"@);
    if k.len() > 0 {
        crate::text::lemma_ascii_lower_char(k[0]);
        assert(l.drop_first() =~= crate::text::ascii_lower_seq(k.drop_first()));
        crate::text::lemma_parse_usize_ascii_lower(k.drop_first());
    }
}

/// Key specs ignore the case of ASCII letters: a spec names the same
/// binding as its lower-cased form (`Ctrl+D` and `ctrl+d` alike).
pub proof fn lemma_parse_key_spec_ignores_case(spec: Seq<char>)
    ensures
        parse_key_spec_spec(crate::text::ascii_lower_seq(spec)) == parse_key_spec_spec(spec),
{
    let t = trim(spec);
    crate::text::lemma_trim_ascii_lower(spec);
    let lt = crate::text::ascii_lower_seq(t);
    assert(trim(crate::text::ascii_lower_seq(spec)) == lt);
    if t.len() > 0 {
        let parts = split_char(t, '+');
        lemma_split_char_nonempty(t, '+');
        crate::text::lemma_split_plus_ascii_lower(t);
        let lparts = split_char(lt, '+');
        assert(lparts == parts.map_values(|p: Seq<char>| crate::text::ascii_lower_seq(p)));
        assert(lparts.drop_last() =~= parts.drop_last().map_values(|p: Seq<char>| crate::text::ascii_lower_seq(p)));
        lemma_fold_modifiers_lower(parts.drop_last());
        assert(lparts.last() == crate::text::ascii_lower_seq(parts.last()));
        crate::text::lemma_trim_ascii_lower(parts.last());
        lemma_key_code_lower(trim(parts.last()));
    }
}


proof fn lemma_lower_fixed(s: Seq<char>)
    requires
        forall|i: int| 0 <= i < s.len() ==> !crate::text::is_ascii_upper(#[trigger] s[i]),
    ensures
        ascii_lower_seq(s) == s,
{
    assert(ascii_lower_seq(s) =~= s);
}

proof fn lemma_key_names(key: Seq<char>)
    ensures
        ascii_lower_seq(key) == "esc"@ ==> key_code_spec(key) == Some(KeyCode::Esc),
        ascii_lower_seq(key) == "escape"@ ==> key_code_spec(key) == Some(KeyCode::Esc),
        ascii_lower_seq(key) == "enter"@ ==> key_code_spec(key) == Some(KeyCode::Enter),
        ascii_lower_seq(key) == "return"@ ==> key_code_spec(key) == Some(KeyCode::Enter),
        ascii_lower_seq(key) == "tab"@ ==> key_code_spec(key) == Some(KeyCode::Tab),
        ascii_lower_seq(key) == "space"@ ==> key_code_spec(key) == Some(KeyCode::Char(' ')),
        ascii_lower_seq(key) == "backspace"@ ==> key_code_spec(key) == Some(KeyCode::Backspace),
        ascii_lower_seq(key) == "delete"@ ==> key_code_spec(key) == Some(KeyCode::Delete),
        ascii_lower_seq(key) == "up"@ ==> key_code_spec(key) == Some(KeyCode::Up),
        ascii_lower_seq(key) == "down"@ ==> key_code_spec(key) == Some(KeyCode::Down),
        ascii_lower_seq(key) == "left"@ ==> key_code_spec(key) == Some(KeyCode::Left),
        ascii_lower_seq(key) == "right"@ ==> key_code_spec(key) == Some(KeyCode::Right),
        ascii_lower_seq(key) == "home"@ ==> key_code_spec(key) == Some(KeyCode::Home),
        ascii_lower_seq(key) == "end"@ ==> key_code_spec(key) == Some(KeyCode::End),
        ascii_lower_seq(key) == "pageup"@ ==> key_code_spec(key) == Some(KeyCode::PageUp),
        ascii_lower_seq(key) == "pagedown"@ ==> key_code_spec(key) == Some(KeyCode::PageDown),
        key.len() == 1 ==> key_code_spec(key) == Some(KeyCode::Char(ascii_lower(key[0]))),
        key.len() >= 2 && (key[0] == 'F' || key[0] == 'f') ==> match parse_usize_spec(key.drop_first()) {
            Some(n) => key_code_spec(key) == if 1 <= n <= 24 {
                Some(KeyCode::F(n as u8))
            } else {
                None::<KeyCode>
            },
            None => key_code_spec(key) is None,
        },
{
    reveal_strlit("esc");
    lemma_lower_fixed("esc"@);
    reveal_strlit("escape");
    lemma_lower_fixed("escape"@);
    reveal_strlit("enter");
    lemma_lower_fixed("enter"@);
    reveal_strlit("return");
    lemma_lower_fixed("return"@);
    reveal_strlit("tab");
    lemma_lower_fixed("tab"@);
    reveal_strlit("space");
    lemma_lower_fixed("space"@);
    reveal_strlit("backspace");
    lemma_lower_fixed("backspace"@);
    reveal_strlit("delete");
    lemma_lower_fixed("delete"@);
    reveal_strlit("up");
    lemma_lower_fixed("up"@);
    reveal_strlit("down");
    lemma_lower_fixed("down"@);
    reveal_strlit("left");
    lemma_lower_fixed("left"@);
    reveal_strlit("right");
    lemma_lower_fixed("right"@);
    reveal_strlit("home");
    lemma_lower_fixed("home"@);
    reveal_strlit("end");
    lemma_lower_fixed("end"@);
    reveal_strlit("pageup");
    lemma_lower_fixed("pageup"@);
    reveal_strlit("pagedown");
    lemma_lower_fixed("pagedown"@);
    if key.len() >= 2 && (key[0] == 'F' || key[0] == 'f') {
        assert(ascii_lower_seq(key)[0] == 'f');
        assert(ascii_lower_seq(key) != "esc"@) by {
            assert("esc"@[0] != 'f');
        }
        assert(ascii_lower_seq(key) != "escape"@) by {
            assert("escape"@[0] != 'f');
        }
        assert(ascii_lower_seq(key) != "enter"@) by {
            assert("enter"@[0] != 'f');
        }
        assert(ascii_lower_seq(key) != "return"@) by {
            assert("return"@[0] != 'f');
        }
        assert(ascii_lower_seq(key) != "tab"@) by {
            assert("tab"@[0] != 'f');
        }
        assert(ascii_lower_seq(key) != "space"@) by {
            assert("space"@[0] != 'f');
        }
        assert(ascii_lower_seq(key) != "backspace"@) by {
            assert("backspace"@[0] != 'f');
        }
        assert(ascii_lower_seq(key) != "delete"@) by {
            assert("delete"@[0] != 'f');
        }
        assert(ascii_lower_seq(key) != "up"@) by {
            assert("up"@[0] != 'f');
        }
        assert(ascii_lower_seq(key) != "down"@) by {
            assert("down"@[0] != 'f');
        }
        assert(ascii_lower_seq(key) != "left"@) by {
            assert("left"@[0] != 'f');
        }
        assert(ascii_lower_seq(key) != "right"@) by {
            assert("right"@[0] != 'f');
        }
        assert(ascii_lower_seq(key) != "home"@) by {
            assert("home"@[0] != 'f');
        }
        assert(ascii_lower_seq(key) != "end"@) by {
            assert("end"@[0] != 'f');
        }
        assert(ascii_lower_seq(key) != "pageup"@) by {
            assert("pageup"@[0] != 'f');
        }
        assert(ascii_lower_seq(key) != "pagedown"@) by {
            assert("pagedown"@[0] != 'f');
        }
    }
    if key.len() == 1 {
        assert(ascii_lower_seq(key).len() != "esc"@.len());
        assert(ascii_lower_seq(key).len() != "escape"@.len());
        assert(ascii_lower_seq(key).len() != "enter"@.len());
        assert(ascii_lower_seq(key).len() != "return"@.len());
        assert(ascii_lower_seq(key).len() != "tab"@.len());
        assert(ascii_lower_seq(key).len() != "space"@.len());
        assert(ascii_lower_seq(key).len() != "backspace"@.len());
        assert(ascii_lower_seq(key).len() != "delete"@.len());
        assert(ascii_lower_seq(key).len() != "up"@.len());
        assert(ascii_lower_seq(key).len() != "down"@.len());
        assert(ascii_lower_seq(key).len() != "left"@.len());
        assert(ascii_lower_seq(key).len() != "right"@.len());
        assert(ascii_lower_seq(key).len() != "home"@.len());
        assert(ascii_lower_seq(key).len() != "end"@.len());
        assert(ascii_lower_seq(key).len() != "pageup"@.len());
        assert(ascii_lower_seq(key).len() != "pagedown"@.len());
    }
    if ascii_lower_seq(key) == "esc"@ {
        assert(key_code_spec(key) == Some(KeyCode::Esc));
    }
    if ascii_lower_seq(key) == "escape"@ {
        assert(key_code_spec(key) == Some(KeyCode::Esc));
    }
    if ascii_lower_seq(key) == "enter"@ {
        assert(key_code_spec(key) == Some(KeyCode::Enter));
    }
    if ascii_lower_seq(key) == "return"@ {
        assert("return"@ != "escape"@) by {
            assert("return"@[0] != "escape"@[0]);
        }
        assert(key_code_spec(key) == Some(KeyCode::Enter));
    }
    if ascii_lower_seq(key) == "tab"@ {
        assert("tab"@ != "esc"@) by {
            assert("tab"@[0] != "esc"@[0]);
        }
        assert(key_code_spec(key) == Some(KeyCode::Tab));
    }
    if ascii_lower_seq(key) == "space"@ {
        assert("space"@ != "enter"@) by {
            assert("space"@[0] != "enter"@[0]);
        }
        assert(key_code_spec(key) == Some(KeyCode::Char(' ')));
    }
    if ascii_lower_seq(key) == "backspace"@ {
        assert(key_code_spec(key) == Some(KeyCode::Backspace));
    }
    if ascii_lower_seq(key) == "delete"@ {
        assert("delete"@ != "escape"@) by {
            assert("delete"@[0] != "escape"@[0]);
        }
        assert("delete"@ != "return"@) by {
            assert("delete"@[0] != "return"@[0]);
        }
        assert(key_code_spec(key) == Some(KeyCode::Delete));
    }
    if ascii_lower_seq(key) == "up"@ {
        assert(key_code_spec(key) == Some(KeyCode::Up));
    }
    if ascii_lower_seq(key) == "down"@ {
        assert(key_code_spec(key) == Some(KeyCode::Down));
    }
    if ascii_lower_seq(key) == "left"@ {
        assert("left"@ != "down"@) by {
            assert("left"@[0] != "down"@[0]);
        }
        assert(key_code_spec(key) == Some(KeyCode::Left));
    }
    if ascii_lower_seq(key) == "right"@ {
        assert("right"@ != "enter"@) by {
            assert("right"@[0] != "enter"@[0]);
        }
        assert("right"@ != "space"@) by {
            assert("right"@[0] != "space"@[0]);
        }
        assert(key_code_spec(key) == Some(KeyCode::Right));
    }
    if ascii_lower_seq(key) == "home"@ {
        assert("home"@ != "down"@) by {
            assert("home"@[0] != "down"@[0]);
        }
        assert("home"@ != "left"@) by {
            assert("home"@[0] != "left"@[0]);
        }
        assert(key_code_spec(key) == Some(KeyCode::Home));
    }
    if ascii_lower_seq(key) == "end"@ {
        assert("end"@ != "esc"@) by {
            assert("end"@[1] != "esc"@[1]);
        }
        assert("end"@ != "tab"@) by {
            assert("end"@[0] != "tab"@[0]);
        }
        assert(key_code_spec(key) == Some(KeyCode::End));
    }
    if ascii_lower_seq(key) == "pageup"@ {
        assert("pageup"@ != "escape"@) by {
            assert("pageup"@[0] != "escape"@[0]);
        }
        assert("pageup"@ != "return"@) by {
            assert("pageup"@[0] != "return"@[0]);
        }
        assert("pageup"@ != "delete"@) by {
            assert("pageup"@[0] != "delete"@[0]);
        }
        assert(key_code_spec(key) == Some(KeyCode::PageUp));
    }
    if ascii_lower_seq(key) == "pagedown"@ {
        assert(key_code_spec(key) == Some(KeyCode::PageDown));
    }
}

/// A named key in a spec stands for the key of that name, whatever the
/// case of its letters and whatever modifiers come before it: when the
/// modifiers of `spec` are all known (together `bits`) and its key piece
/// is "up" (say), the spec parses to the Up key with those modifiers; the
/// same for each name a spec can give a key by ("esc"/"escape",
/// "enter"/"return", "tab", "space", "backspace", "delete", the arrows,
/// "home", "end", "pageup", "pagedown"); a single character stands for
/// that character, ASCII-lower-cased; `F1` to `F24` (either case of F)
/// for the function key of that number.
pub proof fn lemma_named_keys(spec: Seq<char>, bits: u8)
    requires
        trim(spec).len() > 0,
        fold_modifiers(split_char(trim(spec), '+').drop_last()) == Some(bits),
    ensures
        ({
            let key = trim(split_char(trim(spec), '+').last());
            &&& ascii_lower_seq(key) == "esc"@ ==> parse_key_spec_spec(spec) == Some((KeyCode::Esc, KeyModifiers { bits }))
            &&& ascii_lower_seq(key) == "escape"@ ==> parse_key_spec_spec(spec) == Some((KeyCode::Esc, KeyModifiers { bits }))
            &&& ascii_lower_seq(key) == "enter"@ ==> parse_key_spec_spec(spec) == Some((KeyCode::Enter, KeyModifiers { bits }))
            &&& ascii_lower_seq(key) == "return"@ ==> parse_key_spec_spec(spec) == Some((KeyCode::Enter, KeyModifiers { bits }))
            &&& ascii_lower_seq(key) == "tab"@ ==> parse_key_spec_spec(spec) == Some((KeyCode::Tab, KeyModifiers { bits }))
            &&& ascii_lower_seq(key) == "space"@ ==> parse_key_spec_spec(spec) == Some((KeyCode::Char(' '), KeyModifiers { bits }))
            &&& ascii_lower_seq(key) == "backspace"@ ==> parse_key_spec_spec(spec) == Some((KeyCode::Backspace, KeyModifiers { bits }))
            &&& ascii_lower_seq(key) == "delete"@ ==> parse_key_spec_spec(spec) == Some((KeyCode::Delete, KeyModifiers { bits }))
            &&& ascii_lower_seq(key) == "up"@ ==> parse_key_spec_spec(spec) == Some((KeyCode::Up, KeyModifiers { bits }))
            &&& ascii_lower_seq(key) == "down"@ ==> parse_key_spec_spec(spec) == Some((KeyCode::Down, KeyModifiers { bits }))
            &&& ascii_lower_seq(key) == "left"@ ==> parse_key_spec_spec(spec) == Some((KeyCode::Left, KeyModifiers { bits }))
            &&& ascii_lower_seq(key) == "right"@ ==> parse_key_spec_spec(spec) == Some((KeyCode::Right, KeyModifiers { bits }))
            &&& ascii_lower_seq(key) == "home"@ ==> parse_key_spec_spec(spec) == Some((KeyCode::Home, KeyModifiers { bits }))
            &&& ascii_lower_seq(key) == "end"@ ==> parse_key_spec_spec(spec) == Some((KeyCode::End, KeyModifiers { bits }))
            &&& ascii_lower_seq(key) == "pageup"@ ==> parse_key_spec_spec(spec) == Some((KeyCode::PageUp, KeyModifiers { bits }))
            &&& ascii_lower_seq(key) == "pagedown"@ ==> parse_key_spec_spec(spec) == Some((KeyCode::PageDown, KeyModifiers { bits }))
            &&& key.len() == 1 ==> parse_key_spec_spec(spec) == Some((KeyCode::Char(ascii_lower(key[0])), KeyModifiers { bits }))
            &&& key.len() >= 2 && (key[0] == 'F' || key[0] == 'f') ==> match parse_usize_spec(key.drop_first()) {
                Some(n) => parse_key_spec_spec(spec) == if 1 <= n <= 24 {
                    Some((KeyCode::F(n as u8), KeyModifiers { bits }))
                } else {
                    None::<KeyBinding>
                },
                None => parse_key_spec_spec(spec) is None,
            }
        }),
{
    lemma_key_names(trim(split_char(trim(spec), '+').last()));
}


/// The modifier names, whatever the case of their letters: "ctrl" and
/// "control" give Control, "alt" and "meta" give Alt, "shift" gives Shift;
/// and a spec's modifiers are the union of those its pieces name.
pub proof fn lemma_modifier_names(m: Seq<char>, ms: Seq<Seq<char>>)
    ensures
        ascii_lower_seq(m) == "ctrl"@ || ascii_lower_seq(m) == "control"@ ==> modifier_bits(m) == Some(2u8),
        ascii_lower_seq(m) == "alt"@ || ascii_lower_seq(m) == "meta"@ ==> modifier_bits(m) == Some(4u8),
        ascii_lower_seq(m) == "shift"@ ==> modifier_bits(m) == Some(1u8),
        ms.len() > 0 ==> fold_modifiers(ms) == match (fold_modifiers(ms.drop_last()), modifier_bits(trim(ms.last()))) {
            (Some(a), Some(b)) => Some(a | b),
            _ => None::<u8>,
        },
{
    reveal_strlit("ctrl");
    reveal_strlit("control");
    reveal_strlit("alt");
    reveal_strlit("meta");
    reveal_strlit("shift");
    lemma_lower_fixed("ctrl"@);
    lemma_lower_fixed("control"@);
    lemma_lower_fixed("alt"@);
    lemma_lower_fixed("meta"@);
    lemma_lower_fixed("shift"@);
    if ascii_lower_seq(m) == "meta"@ {
        assert("meta"@ != "ctrl"@) by {
            assert("meta"@[0] != "ctrl"@[0]);
        }
    }
}

} // verus!
