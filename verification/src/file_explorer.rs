//! The file explorer: which directory is shown, the entries listed in it,
//! the cursor, search, selection and the directories it may go to.
//!
//! The explorer is jailed: it shows the user's home directory and a few
//! read-only system directories, nothing else. Reading a directory and
//! resolving a path happen at the edge; the results come in here.
use vstd::prelude::*;
use crate::git_scm::scroll_for;
use crate::paths::{parent_path, path_parent, path_starts_with, starts_with_path, PathSet};
use crate::text::{
    chars_lt, contains_seq, lemma_lex_asym, lex_lt, lowercase, owned, str_contains, strs_view,
    to_chars, to_lowercase,
};

verus! {

broadcast use vstd::string::group_string_axioms;

/// Mode within the file explorer
#[derive(Debug, Clone, Copy, PartialEq, Eq, Structural)]
pub enum FileExplorerMode {
    /// Browsing directories and files
    Browser,
    /// Filtering files with search query
    Search,
}

/// Entry type for display
#[derive(Debug, Clone)]
pub enum EntryType {
    /// Directory entry
    Directory,
    /// Regular file with size and extension
    File { size: u64, extension: Option<String> },
    /// Symbolic link with target path
    Symlink { target: String },
    /// Parent directory entry (..)
    ParentDir,
}

/// The abstract value of an [`EntryType`].
pub enum EntryTypeView {
    Directory,
    File { size: u64, extension: Option<Seq<char>> },
    Symlink { target: Seq<char> },
    ParentDir,
}

impl View for EntryType {
    type V = EntryTypeView;

    open spec fn view(&self) -> EntryTypeView {
        match self {
            EntryType::Directory => EntryTypeView::Directory,
            EntryType::File { size, extension } => EntryTypeView::File {
                size: *size,
                extension: match extension {
                    Some(e) => Some(e@),
                    None => None,
                },
            },
            EntryType::Symlink { target } => EntryTypeView::Symlink { target: target@ },
            EntryType::ParentDir => EntryTypeView::ParentDir,
        }
    }
}

/// A file/directory entry in the explorer
#[derive(Debug, Clone)]
pub struct FileEntry {
    /// Display name
    pub name: String,
    /// Full path
    pub path: String,
    /// Type of entry
    pub entry_type: EntryType,
}

/// The abstract value of a [`FileEntry`].
pub struct FileEntryView {
    pub name: Seq<char>,
    pub path: Seq<char>,
    pub entry_type: EntryTypeView,
}

impl View for FileEntry {
    type V = FileEntryView;

    open spec fn view(&self) -> FileEntryView {
        FileEntryView { name: self.name@, path: self.path@, entry_type: self.entry_type@ }
    }
}

pub open spec fn entries_view(v: Seq<FileEntry>) -> Seq<FileEntryView> {
    v.map_values(|e: FileEntry| e@)
}

// ---------------------------------------------------------------------------
// Listing a directory
// ---------------------------------------------------------------------------

/// A name that starts with `.` is hidden.
pub open spec fn is_hidden(name: Seq<char>) -> bool {
    name.len() > 0 && name[0] == '.'
}

/// The key entries are sorted by: the lower-cased name.
pub open spec fn name_key(e: FileEntryView) -> Seq<char> {
    lowercase(e.name)
}

/// `e` put into `sorted` after every entry whose key is not greater.
pub open spec fn insert_by_name(sorted: Seq<FileEntryView>, e: FileEntryView) -> Seq<FileEntryView>
    decreases sorted.len(),
{
    if sorted.len() == 0 {
        seq![e]
    } else if lex_lt(name_key(e), name_key(sorted.last())) {
        insert_by_name(sorted.drop_last(), e).push(sorted.last())
    } else {
        sorted.push(e)
    }
}

/// The entries sorted by lower-cased name; entries with the same key keep
/// their order (a stable sort).
pub open spec fn sorted_by_name(s: Seq<FileEntryView>) -> Seq<FileEntryView>
    decreases s.len(),
{
    if s.len() == 0 {
        seq![]
    } else {
        insert_by_name(sorted_by_name(s.drop_last()), s.last())
    }
}

/// The listed entries that are shown: hidden ones only when they are to
/// be shown.
pub open spec fn shown(e: FileEntryView, show_hidden: bool) -> bool {
    show_hidden || !is_hidden(e.name)
}

/// The shown directories of a listing, in listing order.
pub open spec fn dir_entries(raw: Seq<FileEntryView>, show_hidden: bool) -> Seq<FileEntryView>
    decreases raw.len(),
{
    if raw.len() == 0 {
        seq![]
    } else {
        let r = dir_entries(raw.drop_last(), show_hidden);
        let e = raw.last();
        if shown(e, show_hidden) && e.entry_type is Directory {
            r.push(e)
        } else {
            r
        }
    }
}

/// The shown entries of a listing that are not directories, in listing
/// order.
pub open spec fn other_entries(raw: Seq<FileEntryView>, show_hidden: bool) -> Seq<FileEntryView>
    decreases raw.len(),
{
    if raw.len() == 0 {
        seq![]
    } else {
        let r = other_entries(raw.drop_last(), show_hidden);
        let e = raw.last();
        if shown(e, show_hidden) && !(e.entry_type is Directory) {
            r.push(e)
        } else {
            r
        }
    }
}

/// What a directory listing shows: its directories sorted by name, then
/// everything else sorted by name.
pub open spec fn listing_spec(raw: Seq<FileEntryView>, show_hidden: bool) -> Seq<FileEntryView> {
    sorted_by_name(dir_entries(raw, show_hidden)) + sorted_by_name(other_entries(raw, show_hidden))
}

proof fn lemma_insert_at(s: Seq<FileEntryView>, e: FileEntryView, j: int)
    requires
        0 <= j <= s.len(),
        forall|i: int| j <= i < s.len() ==> lex_lt(name_key(e), #[trigger] name_key(s[i])),
        j > 0 ==> !lex_lt(name_key(e), name_key(s[j - 1])),
    ensures
        insert_by_name(s, e) == s.take(j).push(e) + s.skip(j),
    decreases s.len(),
{
    if s.len() == 0 {
        assert(s.take(j).push(e) + s.skip(j) =~= seq![e]);
    } else if j == s.len() {
        assert(s.take(j) =~= s);
        assert(s.take(j).push(e) + s.skip(j) =~= s.push(e));
    } else {
        assert(lex_lt(name_key(e), name_key(s[s.len() - 1])));
        let d = s.drop_last();
        assert forall|i: int| j <= i < d.len() implies lex_lt(name_key(e), #[trigger] name_key(d[i])) by {
            assert(d[i] == s[i]);
        }
        if j > 0 {
            assert(d[j - 1] == s[j - 1]);
        }
        lemma_insert_at(d, e, j);
        assert(d.take(j).push(e) + d.skip(j) + seq![s.last()] =~= s.take(j).push(e) + s.skip(j));
    }
}

fn name_key_of(e: &FileEntry) -> (r: Vec<char>)
    ensures
        r@ == name_key(e@),
{
    let l = to_lowercase(e.name.as_str());
    to_chars(l.as_str())
}

/// Puts `e` into the sorted `v`, whose keys are `keys`.
fn insert_entry(v: &mut Vec<FileEntry>, keys: &mut Vec<Vec<char>>, e: FileEntry)
    requires
        old(keys)@.len() == old(v)@.len(),
        forall|i: int| 0 <= i < old(v)@.len() ==> (#[trigger] old(keys)@[i])@ == name_key(old(v)@[i]@),
    ensures
        entries_view(final(v)@) == insert_by_name(entries_view(old(v)@), e@),
        final(keys)@.len() == final(v)@.len(),
        forall|i: int| 0 <= i < final(v)@.len() ==> (#[trigger] final(keys)@[i])@ == name_key(final(v)@[i]@),
{
    let k = name_key_of(&e);
    let ghost ev = entries_view(v@);
    let mut j = v.len();
    while j > 0 && chars_lt(k.as_slice(), keys[j - 1].as_slice())
        invariant
            j <= v@.len(),
            keys@.len() == v@.len(),
            v@ == old(v)@,
            keys@ == old(keys)@,
            ev == entries_view(v@),
            k@ == name_key(e@),
            forall|i: int| 0 <= i < v@.len() ==> (#[trigger] keys@[i])@ == name_key(v@[i]@),
            forall|i: int| j <= i < v@.len() ==> lex_lt(name_key(e@), #[trigger] name_key(ev[i])),
        decreases j,
    {
        assert(ev[j - 1] == v@[j - 1]@);
        j = j - 1;
    }
    proof {
        if j > 0 {
            assert(ev[j - 1] == v@[j - 1]@);
        }
        lemma_insert_at(ev, e@, j as int);
    }
    let ghost ee = e@;
    v.insert(j, e);
    keys.insert(j, k);
    assert(entries_view(v@) =~= ev.take(j as int).push(ee) + ev.skip(j as int));
    assert forall|i: int| 0 <= i < v@.len() implies (#[trigger] keys@[i])@ == name_key(v@[i]@) by {
        if i < j {
            assert(keys@[i] == old(keys)@[i] && v@[i] == old(v)@[i]);
        } else if i > j {
            assert(keys@[i] == old(keys)@[i - 1] && v@[i] == old(v)@[i - 1]);
        }
    }
}

/// The entries sorted by lower-cased name, stably.
fn sort_by_name(raw: Vec<FileEntry>) -> (r: Vec<FileEntry>)
    ensures
        entries_view(r@) == sorted_by_name(entries_view(raw@)),
{
    let ghost orig = entries_view(raw@);
    let mut rest = raw;
    let mut out: Vec<FileEntry> = Vec::new();
    let mut keys: Vec<Vec<char>> = Vec::new();
    let mut i: usize = 0;
    let n = rest.len();
    assert(orig.take(0) =~= seq![]);
    assert(entries_view(out@) =~= seq![]);
    while i < n
        invariant
            i <= n == orig.len(),
            entries_view(rest@) == orig.skip(i as int),
            entries_view(out@) == sorted_by_name(orig.take(i as int)),
            keys@.len() == out@.len(),
            forall|j: int| 0 <= j < out@.len() ==> (#[trigger] keys@[j])@ == name_key(out@[j]@),
        decreases n - i,
    {
        assert(rest@.len() > 0) by {
            assert(orig.skip(i as int).len() == n - i);
        }
        let ghost before = rest@;
        let e = rest.remove(0);
        assert(e@ == orig[i as int]) by {
            assert(entries_view(before)[0] == orig.skip(i as int)[0]);
        }
        assert(entries_view(before).len() == before.len());
        assert(before.len() == n - i);
        assert(rest@.len() == n - i - 1);
        assert(rest@.len() == orig.skip(i + 1).len());
        assert(entries_view(rest@) =~= orig.skip(i + 1)) by {
            assert forall|j: int| 0 <= j < rest@.len() implies entries_view(rest@)[j] == orig.skip(i + 1)[j] by {
                assert(rest@[j] == before[j + 1]);
                assert(entries_view(before)[j + 1] == orig.skip(i as int)[j + 1]);
            }
        }
        assert(orig.take(i + 1).drop_last() =~= orig.take(i as int));
        assert(orig.take(i + 1).last() == orig[i as int]);
        insert_entry(&mut out, &mut keys, e);
        i = i + 1;
    }
    assert(orig.take(n as int) =~= orig);
    out
}

} // verus!

verus! {

/// Splits a listing into its shown directories and the rest, in order.
fn split_listing(raw: Vec<FileEntry>, show_hidden: bool) -> (r: (Vec<FileEntry>, Vec<FileEntry>))
    ensures
        entries_view(r.0@) == dir_entries(entries_view(raw@), show_hidden),
        entries_view(r.1@) == other_entries(entries_view(raw@), show_hidden),
{
    let ghost orig = entries_view(raw@);
    let mut rest = raw;
    let mut dirs: Vec<FileEntry> = Vec::new();
    let mut others: Vec<FileEntry> = Vec::new();
    let mut i: usize = 0;
    let n = rest.len();
    assert(orig.take(0) =~= seq![]);
    assert(entries_view(dirs@) =~= seq![]);
    assert(entries_view(others@) =~= seq![]);
    while i < n
        invariant
            i <= n == orig.len(),
            entries_view(rest@) == orig.skip(i as int),
            entries_view(dirs@) == dir_entries(orig.take(i as int), show_hidden),
            entries_view(others@) == other_entries(orig.take(i as int), show_hidden),
        decreases n - i,
    {
        let ghost before = rest@;
        assert(entries_view(before).len() == before.len());
        let e = rest.remove(0);
        assert(e@ == orig[i as int]) by {
            assert(entries_view(before)[0] == orig.skip(i as int)[0]);
        }
        assert(entries_view(rest@) =~= orig.skip(i + 1)) by {
            assert forall|j: int| 0 <= j < rest@.len() implies entries_view(rest@)[j] == orig.skip(i + 1)[j] by {
                assert(rest@[j] == before[j + 1]);
                assert(entries_view(before)[j + 1] == orig.skip(i as int)[j + 1]);
            }
        }
        assert(orig.take(i + 1).drop_last() =~= orig.take(i as int));
        assert(orig.take(i + 1).last() == orig[i as int]);
        let hidden = e.name.as_str().is_empty() == false && to_chars(e.name.as_str())[0] == '.';
        let is_dir = match e.entry_type {
            EntryType::Directory => true,
            _ => false,
        };
        if show_hidden || !hidden {
            if is_dir {
                dirs.push(e);
                assert(entries_view(dirs@) =~= dir_entries(orig.take(i + 1), show_hidden));
            } else {
                others.push(e);
                assert(entries_view(others@) =~= other_entries(orig.take(i + 1), show_hidden));
            }
        }
        i = i + 1;
    }
    assert(orig.take(n as int) =~= orig);
    (dirs, others)
}

// ---------------------------------------------------------------------------
// Where the explorer may go
// ---------------------------------------------------------------------------

/// A path the explorer may show: under the home directory, or under one of
/// the read-only system directories `/etc`, `/usr/share`, `/opt`, `/tmp`.
pub open spec fn is_allowed_spec(path: Seq<char>, home: Seq<char>) -> bool {
    ||| path_starts_with(path, home)
    ||| path_starts_with(path, "/etc"@)
    ||| path_starts_with(path, "/usr/share"@)
    ||| path_starts_with(path, "/opt"@)
    ||| path_starts_with(path, "/tmp"@)
}

/// A path, given by what resolving it gave (nothing when it could not be
/// resolved), lies where the explorer may go.
pub open spec fn within_jail_spec(resolved: Option<Seq<char>>, home: Seq<char>) -> bool {
    match resolved {
        Some(c) => is_allowed_spec(c, home),
        None => false,
    }
}

pub open spec fn opt_view(o: Option<String>) -> Option<Seq<char>> {
    match o {
        Some(s) => Some(s@),
        None => None,
    }
}

/// The entry for the parent directory at the top of a listing.
pub open spec fn parent_entry(parent: Seq<char>) -> FileEntryView {
    FileEntryView { name: ".."@, path: parent, entry_type: EntryTypeView::ParentDir }
}

/// The first entries of a listing of `dir`: the parent directory, when
/// there is one and it lies where the explorer may go.
pub open spec fn parent_part(dir: Seq<char>, parent_resolved: Option<Seq<char>>, home: Seq<char>) -> Seq<
    FileEntryView,
> {
    match path_parent(dir) {
        Some(p) => if within_jail_spec(parent_resolved, home) {
            seq![parent_entry(p)]
        } else {
            seq![]
        },
        None => seq![],
    }
}

/// The indices of the entries whose lower-cased name contains `q`, among
/// the first `n`, ascending.
pub open spec fn matching_indices(entries: Seq<FileEntryView>, q: Seq<char>, n: nat) -> Seq<usize>
    decreases n,
{
    if n == 0 {
        seq![]
    } else {
        let r = matching_indices(entries, q, (n - 1) as nat);
        if contains_seq(lowercase(entries[n - 1].name), q) {
            r.push((n - 1) as usize)
        } else {
            r
        }
    }
}

/// The paths of the files among the entries.
pub open spec fn file_paths(entries: Seq<FileEntryView>) -> Set<Seq<char>> {
    Set::new(|p: Seq<char>| exists|i: int| 0 <= i < entries.len() && entries[i].entry_type is File && #[trigger] entries[i].path == p)
}

/// The paths of the files among the entries at the positions `ix`
/// (positions past the end name nothing).
pub open spec fn files_at(entries: Seq<FileEntryView>, ix: Seq<usize>) -> Set<Seq<char>>
    decreases ix.len(),
{
    if ix.len() == 0 {
        Set::empty()
    } else {
        let rest = files_at(entries, ix.drop_last());
        let i = ix.last() as int;
        if i < entries.len() && entries[i].entry_type is File {
            rest.insert(entries[i].path)
        } else {
            rest
        }
    }
}

/// The paths of the files the explorer shows: those at the filter's
/// positions when a search filter is set, else those of all entries.
pub open spec fn visible_file_paths(v: FileExplorerView) -> Set<Seq<char>> {
    match v.filtered {
        Some(ix) => files_at(v.entries, ix),
        None => file_paths(v.entries),
    }
}

/// A copy of a list of positions.
fn copy_indices(v: &Vec<usize>) -> (r: Vec<usize>)
    ensures
        r@ == v@,
{
    let mut out: Vec<usize> = Vec::new();
    let mut i: usize = 0;
    while i < v.len()
        invariant
            i <= v@.len(),
            out@ == v@.take(i as int),
        decreases v@.len() - i,
    {
        out.push(v[i]);
        assert(v@.take(i + 1) =~= v@.take(i as int).push(v@[i as int]));
        i = i + 1;
    }
    assert(v@.take(v@.len() as int) =~= v@);
    out
}

/// The explorer `v` after listing its directory anew from what reading it
/// gave (`listing`), the parent having resolved to `parent_resolved`: the
/// parent entry when the parent lies where the explorer may go, then the
/// shown directories and then the other shown entries, each sorted by name;
/// the error is cleared. A failed read leaves only the parent entry. After
/// a read the cursor is put back on the list and the search filter and
/// query are cleared.
pub open spec fn relisted(
    v: FileExplorerView,
    parent_resolved: Option<Seq<char>>,
    listing: Result<Vec<FileEntry>, String>,
) -> FileExplorerView {
    let pre = parent_part(v.current_dir, parent_resolved, v.root_jail);
    match listing {
        Err(_) => FileExplorerView { entries: pre, error: None, ..v },
        Ok(raw) => {
            let es = pre + listing_spec(entries_view(raw@), v.show_hidden);
            FileExplorerView {
                entries: es,
                error: None,
                cursor_index: if v.cursor_index >= es.len() {
                    if es.len() == 0 {
                        0
                    } else {
                        (es.len() - 1) as usize
                    }
                } else {
                    v.cursor_index
                },
                filtered: None,
                search_query: seq![],
                ..v
            }
        },
    }
}

/// What listing anew returns: the read's error, if it failed.
pub open spec fn relist_result(listing: Result<Vec<FileEntry>, String>) -> Result<(), String> {
    match listing {
        Err(e) => Err(e),
        Ok(_) => Ok(()),
    }
}

/// The explorer as first made, before its directory is listed: at `start`
/// when that lies where the explorer may go (else at the home directory),
/// with the home directory as the bound, nothing listed or selected.
pub open spec fn fresh(start: Option<String>, home: String) -> FileExplorerView {
    FileExplorerView {
        current_dir: match start {
            Some(s) => if is_allowed_spec(s@, home@) { s@ } else { home@ },
            None => home@,
        },
        root_jail: home@,
        entries: seq![],
        cursor_index: 0,
        scroll: 0,
        selected: Set::empty(),
        mode: FileExplorerMode::Browser,
        search_query: seq![],
        filtered: None,
        error: None,
        show_hidden: false,
        history: seq![],
    }
}

/// Rows the explorer shows at once.
pub open spec fn explorer_rows() -> u16 {
    20
}

/// The abstract value of a [`FileExplorerState`].
#[verifier::ext_equal]
pub struct FileExplorerView {
    pub current_dir: Seq<char>,
    pub root_jail: Seq<char>,
    pub entries: Seq<FileEntryView>,
    pub cursor_index: usize,
    pub scroll: u16,
    pub selected: Set<Seq<char>>,
    pub mode: FileExplorerMode,
    pub search_query: Seq<char>,
    pub filtered: Option<Seq<usize>>,
    pub error: Option<Seq<char>>,
    pub show_hidden: bool,
    pub history: Seq<Seq<char>>,
}

/// State for the file explorer
#[derive(Debug, Clone)]
pub struct FileExplorerState {
    /// Current directory being browsed
    pub current_dir: String,
    /// Root directory that bounds navigation (the user's home)
    pub root_jail: String,
    /// List of entries in current directory
    pub entries: Vec<FileEntry>,
    /// Currently highlighted entry index
    pub cursor_index: usize,
    /// Scroll offset for long lists
    pub scroll: u16,
    /// Set of selected file paths (for multi-select)
    pub selected_files: PathSet,
    /// Current mode (browser or search)
    pub mode: FileExplorerMode,
    /// Search/filter query when in search mode
    pub search_query: String,
    /// Filtered entries based on search (indices into entries)
    pub filtered_indices: Option<Vec<usize>>,
    /// Error message to display
    pub error: Option<String>,
    /// Show hidden files (dotfiles)
    pub show_hidden: bool,
    /// Navigation history for back navigation
    pub history: Vec<String>,
}

impl View for FileExplorerState {
    type V = FileExplorerView;

    open spec fn view(&self) -> FileExplorerView {
        FileExplorerView {
            current_dir: self.current_dir@,
            root_jail: self.root_jail@,
            entries: entries_view(self.entries@),
            cursor_index: self.cursor_index,
            scroll: self.scroll,
            selected: self.selected_files@,
            mode: self.mode,
            search_query: self.search_query@,
            filtered: match self.filtered_indices {
                Some(v) => Some(v@),
                None => None,
            },
            error: opt_view(self.error),
            show_hidden: self.show_hidden,
            history: strs_view(self.history@),
        }
    }
}

impl FileExplorerView {
    /// The index of the highlighted entry: through the filter when there is
    /// one (0 when the cursor is past its end).
    pub open spec fn effective_cursor(self) -> int {
        match self.filtered {
            Some(ind) => if self.cursor_index < ind.len() {
                ind[self.cursor_index as int] as int
            } else {
                0
            },
            None => self.cursor_index as int,
        }
    }

    /// The number of entries shown.
    pub open spec fn visible(self) -> int {
        match self.filtered {
            Some(ind) => ind.len() as int,
            None => self.entries.len() as int,
        }
    }

    /// The last cursor position: one less than the entries shown, 0 when
    /// there are none.
    pub open spec fn last_row(self) -> int {
        if self.visible() == 0 {
            0
        } else {
            self.visible() - 1
        }
    }
}

} // verus!

verus! {

impl FileExplorerState {
    /// Whether a path lies where the explorer may go.
    pub fn is_allowed_path_static(path: &str, home_dir: &str) -> (r: bool)
        ensures
            r == is_allowed_spec(path@, home_dir@),
    {
        starts_with_path(path, home_dir) || starts_with_path(path, "/etc") || starts_with_path(
            path,
            "/usr/share",
        ) || starts_with_path(path, "/opt") || starts_with_path(path, "/tmp")
    }

    /// Whether a path lies where the explorer may go, given what resolving
    /// it gave (nothing when it could not be resolved).
    pub fn is_within_jail(&self, resolved: Option<&str>) -> (r: bool)
        ensures
            r == match resolved {
                Some(c) => is_allowed_spec(c@, self.root_jail@),
                None => false,
            },
    {
        match resolved {
            Some(c) => Self::is_allowed_path_static(c, self.root_jail.as_str()),
            None => false,
        }
    }

    /// A new explorer jailed to `home`, at the resolved start directory
    /// when that lies where the explorer may go, else at `home`. `start` is
    /// what resolving the start directory gave, nothing when it failed;
    /// `listing` is what reading the chosen directory gave and
    /// `parent_resolved` what resolving its parent gave, and the new
    /// explorer lists them (a failed read leaves only the parent entry).
    pub fn new(
        start: Option<String>,
        home: String,
        parent_resolved: Option<String>,
        listing: Result<Vec<FileEntry>, String>,
    ) -> (r: FileExplorerState)
        ensures
            r@ == relisted(fresh(start, home), opt_view(parent_resolved), listing),
    {
        let ghost start0 = start;
        let ghost home0 = home;
        let canonical = match start {
            Some(s) => s,
            None => home.clone(),
        };
        let validated = if Self::is_allowed_path_static(canonical.as_str(), home.as_str()) {
            canonical
        } else {
            home.clone()
        };
        let s = FileExplorerState {
            current_dir: validated,
            root_jail: home,
            entries: Vec::new(),
            cursor_index: 0,
            scroll: 0,
            selected_files: PathSet::new(),
            mode: FileExplorerMode::Browser,
            search_query: String::new(),
            filtered_indices: None,
            error: None,
            show_hidden: false,
            history: Vec::new(),
        };
        assert(s@.entries =~= seq![]);
        assert(s@.history =~= seq![]);
        assert(s@.selected =~= Set::<Seq<char>>::empty());
        assert(s@ == fresh(start0, home0));
        let mut s = s;
        let _ = s.refresh(parent_resolved, listing);
        s
    }

    /// The parent of the current directory, which the caller resolves
    /// before a refresh or a move up.
    pub fn parent_dir(&self) -> (r: Option<String>)
        ensures
            opt_view(r) == path_parent(self.current_dir@),
    {
        parent_path(self.current_dir.as_str())
    }

    /// Lists the current directory anew from what reading it gave: the
    /// parent entry when the parent (resolved as `parent_resolved`) lies
    /// where the explorer may go, then the shown directories and then the
    /// other shown entries, each sorted by name. A failed read leaves only
    /// the parent entry and returns its error. After a read the cursor is
    /// put back on the list and the search filter is cleared.
    pub fn refresh(
        &mut self,
        parent_resolved: Option<String>,
        listing: Result<Vec<FileEntry>, String>,
    ) -> (r: Result<(), String>)
        ensures
            final(self)@ == relisted(old(self)@, opt_view(parent_resolved), listing),
            r == relist_result(listing),
    {
        let mut entries: Vec<FileEntry> = Vec::new();
        match self.parent_dir() {
            Some(parent) => {
                let inside = match &parent_resolved {
                    Some(c) => self.is_within_jail(Some(c.as_str())),
                    None => self.is_within_jail(None),
                };
                if inside {
                    entries.push(
                        FileEntry { name: "..".to_string(), path: parent, entry_type: EntryType::ParentDir },
                    );
                }
            },
            None => {},
        }
        let ghost pre = entries_view(entries@);
        assert(pre =~= parent_part(self@.current_dir, opt_view(parent_resolved), self@.root_jail));
        self.error = None;
        match listing {
            Err(e) => {
                self.entries = entries;
                Err(e)
            },
            Ok(raw) => {
                let (dirs, others) = split_listing(raw, self.show_hidden);
                let sd = sort_by_name(dirs);
                let so = sort_by_name(others);
                let ghost base = entries_view(entries@);
                let ghost sdv = entries_view(sd@);
                let ghost sov = entries_view(so@);
                let mut sd = sd;
                let mut so = so;
                entries.append(&mut sd);
                entries.append(&mut so);
                assert(entries_view(entries@) =~= base + sdv + sov);
                self.entries = entries;
                let len = self.entries.len();
                if self.cursor_index >= len {
                    self.cursor_index = len.saturating_sub(1);
                }
                self.filtered_indices = None;
                self.search_query = String::new();
                Ok(())
            },
        }
    }
}

} // verus!

verus! {

/// The explorer after moving into `dir`: the directory left is remembered
/// for going back, the cursor and scroll start at the top.
pub open spec fn entered(v: FileExplorerView, dir: Seq<char>) -> FileExplorerView {
    FileExplorerView {
        history: v.history.push(v.current_dir),
        current_dir: dir,
        cursor_index: 0,
        scroll: 0,
        ..v
    }
}

/// The explorer after going back to the last remembered directory.
pub open spec fn returned(v: FileExplorerView) -> FileExplorerView {
    FileExplorerView {
        history: v.history.drop_last(),
        current_dir: v.history.last(),
        cursor_index: 0,
        scroll: 0,
        ..v
    }
}

/// Going back undoes moving into a directory (or up to the parent): the
/// explorer is where it was, with the same history, the cursor and
/// scroll at the top.
pub proof fn lemma_back_undoes_enter(v: FileExplorerView, dir: Seq<char>)
    ensures
        returned(entered(v, dir)) == (FileExplorerView { cursor_index: 0, scroll: 0, ..v }),
{
    assert(v.history.push(v.current_dir).drop_last() =~= v.history);
    assert(returned(entered(v, dir)) =~= (FileExplorerView { cursor_index: 0, scroll: 0, ..v }));
}

impl FileExplorerState {
    /// Goes into the directory that resolving a path gave, when it lies
    /// where the explorer may go and is a directory, and lists it from what
    /// reading it gave (`listing`, its parent resolving to
    /// `parent_resolved`); otherwise records why not and lists nothing.
    /// Returns the read's error, if it failed.
    pub fn enter_directory(
        &mut self,
        canonical: String,
        is_dir: bool,
        parent_resolved: Option<String>,
        listing: Result<Vec<FileEntry>, String>,
    ) -> (r: Result<(), String>)
        ensures
            !is_allowed_spec(canonical@, old(self)@.root_jail) ==> r is Ok && final(self)@ == (FileExplorerView {
                error: Some("Cannot navigate to this location"@),
                ..old(self)@
            }),
            is_allowed_spec(canonical@, old(self)@.root_jail) && !is_dir ==> r is Ok && final(self)@ == (
            FileExplorerView { error: Some("Path is not a directory"@), ..old(self)@ }),
            is_allowed_spec(canonical@, old(self)@.root_jail) && is_dir ==> final(self)@ == relisted(
                entered(old(self)@, canonical@),
                opt_view(parent_resolved),
                listing,
            ) && r == relist_result(listing),
    {
        if !Self::is_allowed_path_static(canonical.as_str(), self.root_jail.as_str()) {
            self.error = Some("Cannot navigate to this location".to_string());
            return Ok(());
        }
        if !is_dir {
            self.error = Some("Path is not a directory".to_string());
            return Ok(());
        }
        let ghost c = canonical@;
        let previous = self.current_dir.clone();
        self.history.push(previous);
        self.current_dir = canonical;
        self.cursor_index = 0;
        self.scroll = 0;
        assert(self@.history =~= old(self)@.history.push(old(self)@.current_dir));
        assert(self@ == entered(old(self)@, c));
        self.refresh(parent_resolved, listing)
    }

    /// Goes to the parent directory when it lies where the explorer may go
    /// (the parent resolving to `parent_resolved`) and lists it from what
    /// reading it gave (`listing`, its own parent resolving to
    /// `grandparent_resolved`); otherwise records why not. Returns the
    /// read's error, if it failed.
    pub fn go_up(
        &mut self,
        parent_resolved: Option<String>,
        grandparent_resolved: Option<String>,
        listing: Result<Vec<FileEntry>, String>,
    ) -> (r: Result<(), String>)
        ensures
            match path_parent(old(self)@.current_dir) {
                None => r is Ok && final(self)@ == old(self)@,
                Some(p) => if within_jail_spec(opt_view(parent_resolved), old(self)@.root_jail) {
                    final(self)@ == relisted(entered(old(self)@, p), opt_view(grandparent_resolved), listing)
                        && r == relist_result(listing)
                } else {
                    r is Ok && final(self)@ == (FileExplorerView {
                        error: Some("Cannot navigate to parent directory"@),
                        ..old(self)@
                    })
                },
            },
    {
        match self.parent_dir() {
            None => Ok(()),
            Some(parent) => {
                let inside = match &parent_resolved {
                    Some(c) => self.is_within_jail(Some(c.as_str())),
                    None => self.is_within_jail(None),
                };
                if !inside {
                    self.error = Some("Cannot navigate to parent directory".to_string());
                    return Ok(());
                }
                let ghost pv = parent@;
                let previous = self.current_dir.clone();
                self.history.push(previous);
                self.current_dir = parent;
                self.cursor_index = 0;
                self.scroll = 0;
                assert(self@.history =~= old(self)@.history.push(old(self)@.current_dir));
                assert(self@ == entered(old(self)@, pv));
                self.refresh(grandparent_resolved, listing)
            },
        }
    }

    /// The directory `go_back` returns to, which the caller resolves first.
    pub fn previous_dir(&self) -> (r: Option<String>)
        ensures
            opt_view(r) == (if self@.history.len() == 0 {
                None::<Seq<char>>
            } else {
                Some(self@.history.last())
            }),
    {
        let n = self.history.len();
        if n == 0 {
            None
        } else {
            Some(self.history[n - 1].clone())
        }
    }

    /// Goes back to the last directory of the history, which is dropped
    /// from it, when that still lies where the explorer may go (resolving
    /// to `resolved`), and lists it from what reading it gave (`listing`,
    /// its parent resolving to `parent_resolved`; a failed read is not
    /// reported); otherwise records why not. Returns whether it moved.
    pub fn go_back(
        &mut self,
        resolved: Option<String>,
        parent_resolved: Option<String>,
        listing: Result<Vec<FileEntry>, String>,
    ) -> (r: bool)
        ensures
            old(self)@.history.len() == 0 ==> !r && final(self)@ == old(self)@,
            old(self)@.history.len() > 0 ==> if within_jail_spec(opt_view(resolved), old(self)@.root_jail) {
                r && final(self)@ == relisted(returned(old(self)@), opt_view(parent_resolved), listing)
            } else {
                !r && final(self)@ == (FileExplorerView {
                    history: old(self)@.history.drop_last(),
                    error: Some("Cannot navigate to previous directory"@),
                    ..old(self)@
                })
            },
    {
        match self.history.pop() {
            None => false,
            Some(prev) => {
                assert(self@.history =~= old(self)@.history.drop_last());
                let inside = match &resolved {
                    Some(c) => self.is_within_jail(Some(c.as_str())),
                    None => self.is_within_jail(None),
                };
                if inside {
                    self.current_dir = prev;
                    self.cursor_index = 0;
                    self.scroll = 0;
                    assert(self@ == returned(old(self)@));
                    let _ = self.refresh(parent_resolved, listing);
                    true
                } else {
                    self.error = Some("Cannot navigate to previous directory".to_string());
                    false
                }
            },
        }
    }

    /// Get effective cursor index (accounting for filtering)
    pub fn effective_cursor_index(&self) -> (r: usize)
        ensures
            r == self@.effective_cursor(),
    {
        match &self.filtered_indices {
            Some(indices) => if self.cursor_index < indices.len() {
                indices[self.cursor_index]
            } else {
                0
            },
            None => self.cursor_index,
        }
    }

    /// Get the currently highlighted entry
    pub fn current_entry(&self) -> (r: Option<&FileEntry>)
        ensures
            match r {
                Some(e) => 0 <= self@.effective_cursor() < self@.entries.len() && e@ == self@.entries[self@.effective_cursor()],
                None => !(0 <= self@.effective_cursor() < self@.entries.len()),
            },
    {
        let idx = self.effective_cursor_index();
        if idx < self.entries.len() {
            Some(&self.entries[idx])
        } else {
            None
        }
    }

    /// Get the number of visible entries
    pub fn visible_count(&self) -> (r: usize)
        ensures
            r == self@.visible(),
    {
        match &self.filtered_indices {
            Some(indices) => indices.len(),
            None => self.entries.len(),
        }
    }

    /// Toggle selection on the highlighted entry, when it is a file.
    pub fn toggle_selection(&mut self)
        ensures
            ({
                let i = old(self)@.effective_cursor();
                if 0 <= i < old(self)@.entries.len() && old(self)@.entries[i].entry_type is File {
                    let p = old(self)@.entries[i].path;
                    final(self)@ == (FileExplorerView { selected: toggled(old(self)@.selected, p), ..old(self)@ })
                } else {
                    final(self)@ == old(self)@
                }
            }),
    {
        let idx = self.effective_cursor_index();
        if idx < self.entries.len() {
            let is_file = match self.entries[idx].entry_type {
                EntryType::File { .. } => true,
                _ => false,
            };
            if is_file {
                let path = self.entries[idx].path.clone();
                if self.selected_files.contains(path.as_str()) {
                    self.selected_files.remove(path.as_str());
                } else {
                    self.selected_files.insert(path);
                }
            }
        }
    }

    /// Start search/filter mode
    pub fn start_search(&mut self)
        ensures
            final(self)@ == (FileExplorerView {
                mode: FileExplorerMode::Search,
                search_query: seq![],
                filtered: None,
                ..old(self)@
            }),
    {
        self.mode = FileExplorerMode::Search;
        self.search_query = String::new();
        self.filtered_indices = None;
    }

    /// Exit search mode
    pub fn exit_search(&mut self)
        ensures
            final(self)@ == (FileExplorerView {
                mode: FileExplorerMode::Browser,
                search_query: seq![],
                filtered: None,
                ..old(self)@
            }),
    {
        self.mode = FileExplorerMode::Browser;
        self.search_query = String::new();
        self.filtered_indices = None;
    }

    /// Update search filter: keep the entries whose name contains the
    /// query, ignoring case; an empty query shows every entry.
    pub fn update_search(&mut self, query: &str)
        ensures
            final(self)@ == (FileExplorerView {
                search_query: query@,
                filtered: if query@.len() == 0 {
                    None
                } else {
                    Some(matching_indices(old(self)@.entries, lowercase(query@), old(self)@.entries.len()))
                },
                cursor_index: 0,
                ..old(self)@
            }),
    {
        self.search_query = owned(query);
        if query.is_empty() {
            self.filtered_indices = None;
            self.cursor_index = 0;
            return;
        }
        let q = to_lowercase(query);
        let ghost ev = self@.entries;
        let mut indices: Vec<usize> = Vec::new();
        let mut i: usize = 0;
        while i < self.entries.len()
            invariant
                i <= self.entries@.len(),
                ev == entries_view(self.entries@),
                q@ == lowercase(query@),
                indices@ == matching_indices(ev, q@, i as nat),
            decreases self.entries@.len() - i,
        {
            let name = to_lowercase(self.entries[i].name.as_str());
            assert(ev[i as int] == self.entries@[i as int]@);
            if str_contains(name.as_str(), q.as_str()) {
                indices.push(i);
            }
            i = i + 1;
        }
        self.filtered_indices = Some(indices);
        self.cursor_index = 0;
    }

    /// Get selected file paths, each once.
    pub fn get_selected_paths(&self) -> (r: Vec<String>)
        ensures
            strs_view(r@).to_set() == self@.selected,
            strs_view(r@).no_duplicates(),
    {
        self.selected_files.to_vec()
    }

    /// Select all visible files: the files among the entries the search
    /// filter keeps, or among all entries when there is no filter.
    pub fn select_all_files(&mut self)
        ensures
            final(self)@ == (FileExplorerView {
                selected: old(self)@.selected.union(visible_file_paths(old(self)@)),
                ..old(self)@
            }),
    {
        let filter = match &self.filtered_indices {
            Some(ix) => Some(copy_indices(ix)),
            None => None,
        };
        match filter {
            None => self.add_all_files(),
            Some(ix) => self.add_files_at(&ix),
        }
    }

    /// Adds the paths of the files among the entries at the positions `ix`.
    fn add_files_at(&mut self, ix: &Vec<usize>)
        ensures
            final(self)@ == (FileExplorerView {
                selected: old(self)@.selected.union(files_at(old(self)@.entries, ix@)),
                ..old(self)@
            }),
    {
        let ghost ev = self@.entries;
        let ghost s0 = self@.selected;
        let mut k: usize = 0;
        assert(ix@.take(0) =~= seq![]);
        assert(s0.union(Set::<Seq<char>>::empty()) =~= s0);
        while k < ix.len()
            invariant
                k <= ix@.len(),
                ev == entries_view(self.entries@),
                self@ == (FileExplorerView { selected: self@.selected, ..old(self)@ }),
                self@.selected == s0.union(files_at(ev, ix@.take(k as int))),
                s0 == old(self)@.selected,
                ev == old(self)@.entries,
            decreases ix@.len() - k,
        {
            let i = ix[k];
            assert(ix@.take(k + 1).drop_last() =~= ix@.take(k as int));
            assert(ix@.take(k + 1).last() == i);
            if i < self.entries.len() {
                let is_file = match self.entries[i].entry_type {
                    EntryType::File { .. } => true,
                    _ => false,
                };
                assert(ev[i as int] == self.entries@[i as int]@);
                if is_file {
                    let p = self.entries[i].path.clone();
                    self.selected_files.insert(p);
                }
            }
            assert(self@.selected =~= s0.union(files_at(ev, ix@.take(k + 1))));
            k = k + 1;
        }
        assert(ix@.take(ix@.len() as int) =~= ix@);
    }

    /// Adds the paths of all files among the entries.
    fn add_all_files(&mut self)
        ensures
            final(self)@ == (FileExplorerView {
                selected: old(self)@.selected.union(file_paths(old(self)@.entries)),
                ..old(self)@
            }),
    {
        let ghost ev = self@.entries;
        let ghost s0 = self@.selected;
        let mut i: usize = 0;
        while i < self.entries.len()
            invariant
                i <= self.entries@.len(),
                ev == entries_view(self.entries@),
                self@ == (FileExplorerView { selected: self@.selected, ..old(self)@ }),
                self@.selected == s0.union(file_paths(ev.take(i as int))),
                s0 == old(self)@.selected,
                ev == old(self)@.entries,
            decreases self.entries@.len() - i,
        {
            let is_file = match self.entries[i].entry_type {
                EntryType::File { .. } => true,
                _ => false,
            };
            assert(ev[i as int] == self.entries@[i as int]@);
            if is_file {
                let p = self.entries[i].path.clone();
                self.selected_files.insert(p);
            }
            assert(self@.selected =~= s0.union(file_paths(ev.take(i + 1)))) by {
                assert forall|x: Seq<char>| #[trigger] file_paths(ev.take(i + 1)).contains(x) <==> file_paths(
                    ev.take(i as int),
                ).contains(x) || (ev[i as int].entry_type is File && x == ev[i as int].path) by {
                    if file_paths(ev.take(i + 1)).contains(x) {
                        let k = choose|k: int|
                            0 <= k < i + 1 && ev.take(i + 1)[k].entry_type is File && #[trigger] ev.take(i + 1)[k].path
                                == x;
                        if k < i {
                            assert(ev.take(i as int)[k] == ev[k]);
                        }
                    }
                    if file_paths(ev.take(i as int)).contains(x) {
                        let k = choose|k: int|
                            0 <= k < i && ev.take(i as int)[k].entry_type is File && #[trigger] ev.take(i as int)[k].path
                                == x;
                        assert(ev.take(i + 1)[k] == ev[k]);
                    }
                    if ev[i as int].entry_type is File && x == ev[i as int].path {
                        assert(ev.take(i + 1)[i as int] == ev[i as int]);
                    }
                }
            }
            i = i + 1;
        }
        assert(ev.take(ev.len() as int) =~= ev);
    }

    /// Clear all selections
    pub fn clear_selection(&mut self)
        ensures
            final(self)@ == (FileExplorerView { selected: Set::<Seq<char>>::empty(), ..old(self)@ }),
    {
        self.selected_files.clear();
    }

    /// Toggle hidden files visibility and list the directory anew from what
    /// reading it gave (`listing`, its parent resolving to
    /// `parent_resolved`); a failed read is not reported.
    pub fn toggle_hidden(&mut self, parent_resolved: Option<String>, listing: Result<Vec<FileEntry>, String>)
        ensures
            final(self)@ == relisted(
                FileExplorerView { show_hidden: !old(self)@.show_hidden, ..old(self)@ },
                opt_view(parent_resolved),
                listing,
            ),
    {
        self.show_hidden = !self.show_hidden;
        let _ = self.refresh(parent_resolved, listing);
    }

    /// Keep the cursor in the shown rows.
    fn adjust_scroll(&mut self)
        ensures
            final(self)@ == (FileExplorerView {
                scroll: scroll_for(old(self)@.scroll, old(self)@.cursor_index, explorer_rows()),
                ..old(self)@
            }),
    {
        let cursor = (self.cursor_index % 65536) as u16;
        if cursor < self.scroll {
            self.scroll = cursor;
        } else if (cursor as u32) >= (self.scroll as u32) + 20 {
            self.scroll = cursor - 19;
        }
    }

    /// Move cursor up
    pub fn cursor_up(&mut self)
        ensures
            ({
                let c = if old(self)@.cursor_index > 0 {
                    (old(self)@.cursor_index - 1) as usize
                } else {
                    0
                };
                final(self)@ == (FileExplorerView {
                    cursor_index: c,
                    scroll: scroll_for(old(self)@.scroll, c, explorer_rows()),
                    ..old(self)@
                })
            }),
    {
        if self.cursor_index > 0 {
            self.cursor_index = self.cursor_index - 1;
        }
        self.adjust_scroll();
    }

    /// Move cursor down, no further than the last entry shown.
    pub fn cursor_down(&mut self)
        ensures
            ({
                let c = if old(self)@.cursor_index < old(self)@.last_row() {
                    (old(self)@.cursor_index + 1) as usize
                } else {
                    old(self)@.cursor_index
                };
                final(self)@ == (FileExplorerView {
                    cursor_index: c,
                    scroll: scroll_for(old(self)@.scroll, c, explorer_rows()),
                    ..old(self)@
                })
            }),
    {
        let max = self.visible_count().saturating_sub(1);
        if self.cursor_index < max {
            self.cursor_index = self.cursor_index + 1;
        }
        self.adjust_scroll();
    }

    /// Page up
    pub fn page_up(&mut self, page_size: usize)
        ensures
            ({
                let c = if old(self)@.cursor_index >= page_size {
                    (old(self)@.cursor_index - page_size) as usize
                } else {
                    0
                };
                final(self)@ == (FileExplorerView {
                    cursor_index: c,
                    scroll: scroll_for(old(self)@.scroll, c, explorer_rows()),
                    ..old(self)@
                })
            }),
    {
        self.cursor_index = self.cursor_index.saturating_sub(page_size);
        self.adjust_scroll();
    }

    /// Page down, no further than the last entry shown.
    pub fn page_down(&mut self, page_size: usize)
        ensures
            ({
                let c = if old(self)@.cursor_index + page_size < old(self)@.last_row() {
                    (old(self)@.cursor_index + page_size) as usize
                } else {
                    old(self)@.last_row() as usize
                };
                final(self)@ == (FileExplorerView {
                    cursor_index: c,
                    scroll: scroll_for(old(self)@.scroll, c, explorer_rows()),
                    ..old(self)@
                })
            }),
    {
        let max = self.visible_count().saturating_sub(1);
        let target = self.cursor_index.saturating_add(page_size);
        self.cursor_index = if target < max {
            target
        } else {
            max
        };
        self.adjust_scroll();
    }

    /// Check if a file is selected
    pub fn is_selected(&self, path: &str) -> (r: bool)
        ensures
            r == self@.selected.contains(path@),
    {
        self.selected_files.contains(path)
    }
}

} // verus!

verus! {

/// Every index the search keeps is an index of the entries, in ascending
/// order, and names an entry whose lower-cased name contains the query;
/// every such entry is kept.
pub proof fn lemma_search_keeps_exactly_matches(entries: Seq<FileEntryView>, q: Seq<char>, n: nat)
    requires
        n <= entries.len(),
        entries.len() <= usize::MAX,
    ensures
        forall|k: int| #![trigger matching_indices(entries, q, n)[k]]
            0 <= k < matching_indices(entries, q, n).len() ==> {
                let i = matching_indices(entries, q, n)[k] as int;
                0 <= i < n && contains_seq(lowercase(entries[i].name), q)
            },
        forall|k: int, l: int|
            0 <= k < l < matching_indices(entries, q, n).len() ==> matching_indices(entries, q, n)[k]
                < matching_indices(entries, q, n)[l],
        forall|i: int|
            0 <= i < n && contains_seq(lowercase(#[trigger] entries[i].name), q) ==> matching_indices(
                entries,
                q,
                n,
            ).contains(i as usize),
    decreases n,
{
    if n > 0 {
        lemma_search_keeps_exactly_matches(entries, q, (n - 1) as nat);
        let prev = matching_indices(entries, q, (n - 1) as nat);
        let cur = matching_indices(entries, q, n);
        let hit = contains_seq(lowercase(entries[n - 1].name), q);
        if hit {
            assert(cur == prev.push((n - 1) as usize));
        } else {
            assert(cur == prev);
        }
        assert forall|k: int| #![trigger cur[k]] 0 <= k < cur.len() implies {
            let i = cur[k] as int;
            0 <= i < n && contains_seq(lowercase(entries[i].name), q)
        } by {
            if k < prev.len() {
                assert(cur[k] == prev[k]);
            }
        }
        assert forall|k: int, l: int| 0 <= k < l < cur.len() implies cur[k] < cur[l] by {
            assert(cur[k] == prev[k]);
            if l < prev.len() {
                assert(cur[l] == prev[l]);
            } else {
                assert(cur[l] == (n - 1) as usize);
            }
        }
        assert forall|i: int|
            0 <= i < n && contains_seq(lowercase(#[trigger] entries[i].name), q) implies cur.contains(
            i as usize,
        ) by {
            if i < n - 1 {
                assert(prev.contains(i as usize));
                let k = choose|k: int| 0 <= k < prev.len() && prev[k] == i as usize;
                assert(cur[k] == i as usize);
            } else {
                assert(cur[prev.len() as int] == i as usize);
            }
        }
    }
}

/// A path set with `p` toggled: taken out when it is in, put in when not.
pub open spec fn toggled(s: Set<Seq<char>>, p: Seq<char>) -> Set<Seq<char>> {
    if s.contains(p) {
        s.remove(p)
    } else {
        s.insert(p)
    }
}

/// Toggling the same path twice gives back the selection one started with.
pub proof fn lemma_toggle_twice(s: Set<Seq<char>>, p: Seq<char>)
    ensures
        toggled(toggled(s, p), p) == s,
{
    assert(toggled(toggled(s, p), p) =~= s);
}

/// In the order of names: every entry's key is not greater than any key
/// after it.
pub open spec fn name_ordered(s: Seq<FileEntryView>) -> bool {
    forall|i: int, j: int| 0 <= i < j < s.len() ==> !lex_lt(name_key(#[trigger] s[j]), name_key(#[trigger] s[i]))
}

proof fn lemma_not_lt_trans(a: Seq<char>, b: Seq<char>, c: Seq<char>)
    requires
        !lex_lt(b, a),
        !lex_lt(c, b),
    ensures
        !lex_lt(c, a),
{
    if a != b && b != c {
        crate::text::lemma_lex_total(a, b);
        crate::text::lemma_lex_total(b, c);
        crate::text::lemma_lex_trans(a, b, c);
        lemma_lex_asym(a, c);
    }
}

proof fn lemma_insert_by_name(s: Seq<FileEntryView>, e: FileEntryView)
    requires
        name_ordered(s),
    ensures
        name_ordered(insert_by_name(s, e)),
        insert_by_name(s, e).len() == s.len() + 1,
        forall|k: int| #![trigger insert_by_name(s, e)[k]]
            0 <= k < s.len() + 1 ==> insert_by_name(s, e)[k] == e || s.contains(insert_by_name(s, e)[k]),
        insert_by_name(s, e).contains(e),
        forall|x: FileEntryView| s.contains(x) ==> #[trigger] insert_by_name(s, e).contains(x),
    decreases s.len(),
{
    let r = insert_by_name(s, e);
    if s.len() == 0 {
        assert(r[0] == e);
    } else if lex_lt(name_key(e), name_key(s.last())) {
        let d = s.drop_last();
        let last = s.last();
        assert(name_ordered(d)) by {
            assert forall|i: int, j: int| 0 <= i < j < d.len() implies !lex_lt(name_key(#[trigger] d[j]), name_key(#[trigger] d[i])) by {
                assert(d[i] == s[i] && d[j] == s[j]);
            }
        }
        lemma_insert_by_name(d, e);
        let m = insert_by_name(d, e);
        assert(r == m.push(last));
        assert forall|k: int| 0 <= k < m.len() implies !lex_lt(name_key(last), name_key(#[trigger] m[k])) by {
            if m[k] == e {
                lemma_lex_asym(name_key(e), name_key(last));
            } else {
                assert(d.contains(m[k]));
                let i = choose|i: int| 0 <= i < d.len() && d[i] == m[k];
                assert(s[i] == d[i]);
                assert(!lex_lt(name_key(s[s.len() - 1]), name_key(s[i])));
            }
        }
        assert forall|i: int, j: int| 0 <= i < j < r.len() implies !lex_lt(name_key(#[trigger] r[j]), name_key(#[trigger] r[i])) by {
            if j < m.len() {
                assert(r[i] == m[i] && r[j] == m[j]);
            } else {
                assert(r[j] == last && r[i] == m[i]);
            }
        }
        assert forall|k: int| 0 <= k < s.len() + 1 implies #[trigger] r[k] == e || s.contains(r[k]) by {
            if k < m.len() {
                assert(r[k] == m[k]);
                if m[k] != e {
                    assert(d.contains(m[k]));
                    let i = choose|i: int| 0 <= i < d.len() && d[i] == m[k];
                    assert(s[i] == d[i]);
                }
            } else {
                assert(r[k] == s[s.len() - 1]);
            }
        }
        assert(m.contains(e));
        let ke = choose|k: int| 0 <= k < m.len() && m[k] == e;
        assert(r[ke] == e);
        assert forall|x: FileEntryView| s.contains(x) implies #[trigger] r.contains(x) by {
            let i = choose|i: int| 0 <= i < s.len() && s[i] == x;
            if i < s.len() - 1 {
                assert(d[i] == x);
                assert(d.contains(x));
                assert(m.contains(x));
                let k = choose|k: int| 0 <= k < m.len() && m[k] == x;
                assert(r[k] == x);
            } else {
                assert(r[m.len() as int] == x);
            }
        }
    } else {
        assert(r == s.push(e));
        assert forall|i: int| 0 <= i < s.len() implies !lex_lt(name_key(e), name_key(#[trigger] s[i])) by {
            if i < s.len() - 1 {
                assert(!lex_lt(name_key(s[s.len() - 1]), name_key(s[i])));
                lemma_not_lt_trans(name_key(s[i]), name_key(s[s.len() - 1]), name_key(e));
            }
        }
        assert forall|i: int, j: int| 0 <= i < j < r.len() implies !lex_lt(name_key(#[trigger] r[j]), name_key(#[trigger] r[i])) by {
            if j < s.len() {
                assert(r[i] == s[i] && r[j] == s[j]);
            } else {
                assert(r[j] == e && r[i] == s[i]);
            }
        }
        assert(r[s.len() as int] == e);
        assert forall|k: int| 0 <= k < s.len() + 1 implies #[trigger] r[k] == e || s.contains(r[k]) by {
            if k < s.len() {
                assert(r[k] == s[k]);
            }
        }
        assert forall|x: FileEntryView| s.contains(x) implies #[trigger] r.contains(x) by {
            let i = choose|i: int| 0 <= i < s.len() && s[i] == x;
            assert(r[i] == x);
        }
    }
}

/// A listing sorted by name is in the order of names, as long as what it
/// was sorted from, and holds every entry of it.
pub proof fn lemma_sorted_by_name(s: Seq<FileEntryView>)
    ensures
        name_ordered(sorted_by_name(s)),
        sorted_by_name(s).len() == s.len(),
        forall|x: FileEntryView| s.contains(x) ==> #[trigger] sorted_by_name(s).contains(x),
        forall|k: int| #![trigger sorted_by_name(s)[k]]
            0 <= k < s.len() ==> s.contains(sorted_by_name(s)[k]),
    decreases s.len(),
{
    if s.len() > 0 {
        let d = s.drop_last();
        lemma_sorted_by_name(d);
        lemma_insert_by_name(sorted_by_name(d), s.last());
        let r = sorted_by_name(s);
        assert forall|x: FileEntryView| s.contains(x) implies #[trigger] r.contains(x) by {
            let i = choose|i: int| 0 <= i < s.len() && s[i] == x;
            if i < s.len() - 1 {
                assert(d[i] == x);
                assert(d.contains(x));
            }
        }
        assert forall|k: int| 0 <= k < s.len() implies s.contains(#[trigger] r[k]) by {
            if r[k] == s.last() {
                assert(s[s.len() - 1] == r[k]);
            } else {
                assert(sorted_by_name(d).contains(r[k]));
                let j = choose|j: int| 0 <= j < d.len() && sorted_by_name(d)[j] == r[k];
                assert(d.contains(r[k]));
                let i = choose|i: int| 0 <= i < d.len() && d[i] == r[k];
                assert(s[i] == r[k]);
            }
        }
    }
}

} // verus!
