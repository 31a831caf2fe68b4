//! Git source-control view: status parsing, panel and cursor state, and
//! the decisions around each git operation.
//!
//! The git commands themselves are run by the caller; this module decides
//! which command to run, parses what git printed, and updates the state.
use vstd::prelude::*;
use crate::text::{
    is_first_occ, lemma_find_spec_some, occurs_at, contains_seq, decimal, find_from, is_blank, str_contains, find_spec, from_char_range, lines_spec, owned, parse_usize, parse_usize_spec,
    push_str, split_lines, split_words, to_chars, trim, trim_str, usize_to_string, words,
};
use crate::text::{at_boundary, chars_after, utf8_len_at_most};
use vstd::utf8::*;

verus! {

broadcast use vstd::string::group_string_axioms, encode_utf8_decode_utf8;

#[verifier::external_type_specification]
#[verifier::external_body]
pub struct ExInstant(std::time::Instant);

/// Git file status.
#[derive(Debug, Clone, Copy, PartialEq, Eq, Structural)]
pub enum GitFileStatus {
    /// Modified but not staged
    Modified,
    /// Staged for commit
    Staged,
    /// Both staged and has unstaged changes
    StagedModified,
    /// Untracked file
    Untracked,
    /// Deleted file
    Deleted,
    /// Deleted and staged
    StagedDeleted,
    /// Renamed file
    Renamed,
    /// Copied file
    Copied,
    /// Unmerged (conflict)
    Conflict,
    /// Ignored file
    Ignored,
}

impl GitFileStatus {
    pub open spec fn indicator_spec(self) -> Seq<char> {
        match self {
            GitFileStatus::Modified => " M"@,
            GitFileStatus::Staged => "M "@,
            GitFileStatus::StagedModified => "MM"@,
            GitFileStatus::Untracked => "??"@,
            GitFileStatus::Deleted => " D"@,
            GitFileStatus::StagedDeleted => "D "@,
            GitFileStatus::Renamed => "R "@,
            GitFileStatus::Copied => "C "@,
            GitFileStatus::Conflict => "UU"@,
            GitFileStatus::Ignored => "!!"@,
        }
    }

    pub open spec fn description_spec(self) -> Seq<char> {
        match self {
            GitFileStatus::Modified => "Modified"@,
            GitFileStatus::Staged => "Staged"@,
            GitFileStatus::StagedModified => "Staged+Modified"@,
            GitFileStatus::Untracked => "Untracked"@,
            GitFileStatus::Deleted => "Deleted"@,
            GitFileStatus::StagedDeleted => "Staged Deletion"@,
            GitFileStatus::Renamed => "Renamed"@,
            GitFileStatus::Copied => "Copied"@,
            GitFileStatus::Conflict => "Conflict"@,
            GitFileStatus::Ignored => "Ignored"@,
        }
    }

    /// The status indicator, as `git status --short` prints it.
    pub fn indicator(&self) -> (r: &'static str)
        ensures
            r@ == self.indicator_spec(),
    {
        match self {
            GitFileStatus::Modified => " M",
            GitFileStatus::Staged => "M ",
            GitFileStatus::StagedModified => "MM",
            GitFileStatus::Untracked => "??",
            GitFileStatus::Deleted => " D",
            GitFileStatus::StagedDeleted => "D ",
            GitFileStatus::Renamed => "R ",
            GitFileStatus::Copied => "C ",
            GitFileStatus::Conflict => "UU",
            GitFileStatus::Ignored => "!!",
        }
    }

    /// A human-readable description.
    pub fn description(&self) -> (r: &'static str)
        ensures
            r@ == self.description_spec(),
    {
        match self {
            GitFileStatus::Modified => "Modified",
            GitFileStatus::Staged => "Staged",
            GitFileStatus::StagedModified => "Staged+Modified",
            GitFileStatus::Untracked => "Untracked",
            GitFileStatus::Deleted => "Deleted",
            GitFileStatus::StagedDeleted => "Staged Deletion",
            GitFileStatus::Renamed => "Renamed",
            GitFileStatus::Copied => "Copied",
            GitFileStatus::Conflict => "Conflict",
            GitFileStatus::Ignored => "Ignored",
        }
    }
}

/// A file entry in the Git SCM view.
#[derive(Debug)]
pub struct GitFileEntry {
    /// File path relative to repo root
    pub path: String,
    /// Git status
    pub status: GitFileStatus,
    /// Original path (for renamed files)
    pub original_path: Option<String>,
    /// Whether the file is selected for batch operations
    pub selected: bool,
}

/// The abstract value of a [`GitFileEntry`].
pub struct GitFileEntryView {
    pub path: Seq<char>,
    pub status: GitFileStatus,
    pub original_path: Option<Seq<char>>,
    pub selected: bool,
}

pub open spec fn opt_str_view(o: Option<String>) -> Option<Seq<char>> {
    match o {
        Some(s) => Some(s@),
        None => None,
    }
}

impl View for GitFileEntry {
    type V = GitFileEntryView;

    open spec fn view(&self) -> GitFileEntryView {
        GitFileEntryView {
            path: self.path@,
            status: self.status,
            original_path: opt_str_view(self.original_path),
            selected: self.selected,
        }
    }
}

pub fn clone_opt_string(o: &Option<String>) -> (r: Option<String>)
    ensures
        opt_str_view(r) == opt_str_view(*o),
{
    match o {
        Some(s) => Some(s.clone()),
        None => None,
    }
}

impl Clone for GitFileEntry {
    fn clone(&self) -> (r: Self)
        ensures
            r@ == self@,
    {
        GitFileEntry {
            path: self.path.clone(),
            status: self.status,
            original_path: clone_opt_string(&self.original_path),
            selected: self.selected,
        }
    }
}

pub open spec fn entries_view(v: Seq<GitFileEntry>) -> Seq<GitFileEntryView> {
    v.map_values(|e: GitFileEntry| e@)
}

/// Current panel/section in the SCM view.
#[derive(Debug, Clone, Copy, PartialEq, Eq, Structural)]
pub enum ScmPanel {
    /// Staged changes panel
    Staged,
    /// Unstaged changes panel
    Changes,
    /// Untracked files panel
    Untracked,
}

impl ScmPanel {
    pub open spec fn next_spec(self) -> ScmPanel {
        match self {
            ScmPanel::Staged => ScmPanel::Changes,
            ScmPanel::Changes => ScmPanel::Untracked,
            ScmPanel::Untracked => ScmPanel::Staged,
        }
    }

    pub open spec fn prev_spec(self) -> ScmPanel {
        match self {
            ScmPanel::Staged => ScmPanel::Untracked,
            ScmPanel::Changes => ScmPanel::Staged,
            ScmPanel::Untracked => ScmPanel::Changes,
        }
    }
}

/// Tab and Shift+Tab undo each other; three steps either way visit every
/// panel and come back to the start.
pub proof fn lemma_scm_panel_cycle(p: ScmPanel)
    ensures
        p.next_spec().prev_spec() == p,
        p.prev_spec().next_spec() == p,
        p.next_spec().next_spec().next_spec() == p,
        p.prev_spec().prev_spec().prev_spec() == p,
        p.next_spec() != p && p.next_spec().next_spec() != p,
{
}

/// Git actions that can be performed.
#[derive(Debug, Clone, PartialEq)]
pub enum GitAction {
    Push,
    Pull,
    Fetch,
    Commit,
    ResetHard,
    DiscardAll,
    Discard(Vec<String>),
}

/// Git operation mode.
#[derive(Debug, Clone, PartialEq)]
pub enum GitOperationMode {
    /// Normal browsing mode
    Browse,
    /// Entering commit message
    CommitMessage,
    /// Confirming an operation
    Confirm { message: String, action: GitAction },
}

// ---------------------------------------------------------------------------
// `git status --porcelain=v1` output
// ---------------------------------------------------------------------------

/// The separator between the old and new path of a rename.
pub open spec fn arrow() -> Seq<char> {
    seq![' ', '-', '>', ' ']
}

/// What follows the two status characters and the space of a status line:
/// the text after its first three bytes.
pub open spec fn path_part(l: Seq<char>) -> Seq<char> {
    chars_after(l, 3)
}

/// The path named by the path part of a status line: for `old -> new` the
/// part after the first arrow (up to a second arrow, if any), else all of
/// it.
pub open spec fn entry_path(p: Seq<char>) -> Seq<char> {
    match find_spec(p, arrow(), 0) {
        Some(i) => match find_spec(p, arrow(), i + 4) {
            Some(j) => p.subrange(i + 4, j),
            None => p.subrange(i + 4, p.len() as int),
        },
        None => p,
    }
}

/// The original path of a renamed entry (the part before the arrow).
pub open spec fn entry_original(p: Seq<char>) -> Option<Seq<char>> {
    match find_spec(p, arrow(), 0) {
        Some(i) => Some(p.subrange(0, i)),
        None => None,
    }
}

pub open spec fn entry_for(l: Seq<char>, status: GitFileStatus) -> GitFileEntryView {
    GitFileEntryView {
        path: entry_path(path_part(l)),
        status,
        original_path: entry_original(path_part(l)),
        selected: false,
    }
}

/// The second character of a line, or a space when it has none.
pub open spec fn second_char(l: Seq<char>) -> char {
    if l.len() > 1 {
        l[1]
    } else {
        ' '
    }
}

/// Index/worktree pairs that mark a merge conflict.
pub open spec fn is_conflict(x: char, y: char) -> bool {
    ||| (x == 'U' && y == 'U')
    ||| (x == 'A' && y == 'A')
    ||| (x == 'D' && y == 'D')
    ||| (x == 'A' && y == 'U')
    ||| (x == 'U' && y == 'A')
    ||| (x == 'D' && y == 'U')
    ||| (x == 'U' && y == 'D')
}

/// The status of the staged-panel entry a pair produces, if any.
pub open spec fn staged_status(x: char, y: char) -> Option<GitFileStatus> {
    if (x == 'M' || x == 'A') && y == ' ' {
        Some(GitFileStatus::Staged)
    } else if x == 'M' && y == 'M' {
        Some(GitFileStatus::StagedModified)
    } else if x == 'D' && y == ' ' {
        Some(GitFileStatus::StagedDeleted)
    } else if x == 'R' && (y == ' ' || y == 'M') {
        Some(GitFileStatus::Renamed)
    } else if x == 'C' && y == ' ' {
        Some(GitFileStatus::Copied)
    } else {
        None
    }
}

/// Pairs with a dedicated meaning; any other pair with a worktree change
/// counts as a modification.
pub open spec fn known_pair(x: char, y: char) -> bool {
    ||| (x == '?' && y == '?')
    ||| (x == '!' && y == '!')
    ||| staged_status(x, y) is Some
    ||| (x == ' ' && (y == 'M' || y == 'D'))
    ||| is_conflict(x, y)
}

/// The status of the changes-panel entry a pair produces, if any.
pub open spec fn changed_status(x: char, y: char) -> Option<GitFileStatus> {
    if x == 'M' && y == 'M' {
        Some(GitFileStatus::Modified)
    } else if x == ' ' && y == 'M' {
        Some(GitFileStatus::Modified)
    } else if x == ' ' && y == 'D' {
        Some(GitFileStatus::Deleted)
    } else if is_conflict(x, y) {
        Some(GitFileStatus::Conflict)
    } else if !known_pair(x, y) && y != ' ' {
        Some(GitFileStatus::Modified)
    } else {
        None
    }
}

/// The status of the untracked-panel entry a pair produces, if any.
pub open spec fn untracked_status(x: char, y: char) -> Option<GitFileStatus> {
    if x == '?' && y == '?' {
        Some(GitFileStatus::Untracked)
    } else {
        None
    }
}

pub open spec fn panel_status(panel: ScmPanel, x: char, y: char) -> Option<GitFileStatus> {
    match panel {
        ScmPanel::Staged => staged_status(x, y),
        ScmPanel::Changes => changed_status(x, y),
        ScmPanel::Untracked => untracked_status(x, y),
    }
}

/// The entries one status line contributes to `panel` (lines shorter than
/// four bytes contribute nothing).
pub open spec fn line_entries(l: Seq<char>, panel: ScmPanel) -> Seq<GitFileEntryView> {
    if encode_utf8(l).len() < 4 {
        seq![]
    } else {
        match panel_status(panel, l[0], second_char(l)) {
            Some(s) => seq![entry_for(l, s)],
            None => seq![],
        }
    }
}

/// Whether a line can be cut after its first three bytes: it is shorter
/// than four bytes, or a character starts at its fourth byte.
pub open spec fn line_sliceable(l: Seq<char>) -> bool {
    encode_utf8(l).len() >= 4 ==> at_boundary(l, 3)
}

/// Whether every line of a status output can be cut after its status
/// characters (as every line git writes can).
pub open spec fn status_sliceable(output: Seq<char>) -> bool {
    forall|i: int| 0 <= i < lines_spec(output).len() ==> line_sliceable(#[trigger] lines_spec(output)[i])
}

/// The entries all status lines contribute to `panel`, in line order.
pub open spec fn panel_entries(lines: Seq<Seq<char>>, panel: ScmPanel) -> Seq<GitFileEntryView>
    decreases lines.len(),
{
    if lines.len() == 0 {
        seq![]
    } else {
        panel_entries(lines.drop_last(), panel) + line_entries(lines.last(), panel)
    }
}

/// The three entry lists of a porcelain status output.
pub struct StatusLists {
    pub staged: Vec<GitFileEntry>,
    pub changed: Vec<GitFileEntry>,
    pub untracked: Vec<GitFileEntry>,
}

pub open spec fn status_lists_of(output: Seq<char>, r: StatusLists) -> bool {
    &&& entries_view(r.staged@) == panel_entries(lines_spec(output), ScmPanel::Staged)
    &&& entries_view(r.changed@) == panel_entries(lines_spec(output), ScmPanel::Changes)
    &&& entries_view(r.untracked@) == panel_entries(lines_spec(output), ScmPanel::Untracked)
}

fn staged_status_of(x: char, y: char) -> (r: Option<GitFileStatus>)
    ensures
        r == staged_status(x, y),
{
    if (x == 'M' || x == 'A') && y == ' ' {
        Some(GitFileStatus::Staged)
    } else if x == 'M' && y == 'M' {
        Some(GitFileStatus::StagedModified)
    } else if x == 'D' && y == ' ' {
        Some(GitFileStatus::StagedDeleted)
    } else if x == 'R' && (y == ' ' || y == 'M') {
        Some(GitFileStatus::Renamed)
    } else if x == 'C' && y == ' ' {
        Some(GitFileStatus::Copied)
    } else {
        None
    }
}

fn is_conflict_pair(x: char, y: char) -> (r: bool)
    ensures
        r == is_conflict(x, y),
{
    (x == 'U' && y == 'U') || (x == 'A' && y == 'A') || (x == 'D' && y == 'D') || (x == 'A' && y
        == 'U') || (x == 'U' && y == 'A') || (x == 'D' && y == 'U') || (x == 'U' && y == 'D')
}

fn changed_status_of(x: char, y: char) -> (r: Option<GitFileStatus>)
    ensures
        r == changed_status(x, y),
{
    if x == 'M' && y == 'M' {
        Some(GitFileStatus::Modified)
    } else if x == ' ' && y == 'M' {
        Some(GitFileStatus::Modified)
    } else if x == ' ' && y == 'D' {
        Some(GitFileStatus::Deleted)
    } else if is_conflict_pair(x, y) {
        Some(GitFileStatus::Conflict)
    } else {
        let known = (x == '?' && y == '?') || (x == '!' && y == '!') || staged_status_of(
            x,
            y,
        ).is_some() || (x == ' ' && (y == 'M' || y == 'D'));
        if !known && y != ' ' {
            Some(GitFileStatus::Modified)
        } else {
            None
        }
    }
}

fn panel_status_of(panel: ScmPanel, x: char, y: char) -> (r: Option<GitFileStatus>)
    ensures
        r == panel_status(panel, x, y),
{
    match panel {
        ScmPanel::Staged => staged_status_of(x, y),
        ScmPanel::Changes => changed_status_of(x, y),
        ScmPanel::Untracked => if x == '?' && y == '?' {
            Some(GitFileStatus::Untracked)
        } else {
            None
        },
    }
}

/// Builds the entry for a status line.
fn entry_of_line(l: &[char], status: GitFileStatus) -> (r: GitFileEntry)
    requires
        encode_utf8(l@).len() >= 4,
        at_boundary(l@, 3),
    ensures
        r@ == entry_for(l@, status),
{
    let line = from_char_range(l, 0, l.len());
    assert(l@.subrange(0, l@.len() as int) =~= l@);
    let (_, rest) = line.as_str().split_at(3);
    let p = to_chars(rest);
    let arrow_chars = to_chars(" -> ");
    proof {
        reveal_strlit(" -> ");
        assert(arrow_chars@ =~= arrow());
    }
    let n = p.len();
    match find_from(p.as_slice(), arrow_chars.as_slice(), 0) {
        Some(i) => {
            let end = match find_from(p.as_slice(), arrow_chars.as_slice(), i + 4) {
                Some(j) => j,
                None => n,
            };
            GitFileEntry {
                path: from_char_range(p.as_slice(), i + 4, end),
                status,
                original_path: Some(from_char_range(p.as_slice(), 0, i)),
                selected: false,
            }
        },
        None => {
            assert(p@.subrange(0, n as int) =~= p@);
            GitFileEntry {
                path: from_char_range(p.as_slice(), 0, n),
                status,
                original_path: None,
                selected: false,
            }
        },
    }
}

proof fn lemma_panel_entries_step(lines: Seq<Seq<char>>, k: int, panel: ScmPanel)
    requires
        0 <= k < lines.len(),
    ensures
        panel_entries(lines.take(k + 1), panel) == panel_entries(lines.take(k), panel)
            + line_entries(lines[k], panel),
{
    assert(lines.take(k + 1).drop_last() =~= lines.take(k));
}

/// Appends the entries of one line to `list`.
fn push_line_entry(list: &mut Vec<GitFileEntry>, l: &[char], panel: ScmPanel)
    requires
        line_sliceable(l@),
    ensures
        entries_view(final(list)@) == entries_view(old(list)@) + line_entries(l@, panel),
{
    if !utf8_len_at_most(l, 3) {
        proof {
            if l@.len() == 0 {
                assert(encode_utf8(l@) =~= Seq::<u8>::empty());
            }
        }
        let second = if l.len() > 1 {
            l[1]
        } else {
            ' '
        };
        match panel_status_of(panel, l[0], second) {
            Some(s) => {
                let e = entry_of_line(l, s);
                list.push(e);
                assert(entries_view(final(list)@) =~= entries_view(old(list)@) + line_entries(
                    l@,
                    panel,
                ));
            },
            None => {
                assert(entries_view(final(list)@) =~= entries_view(old(list)@) + line_entries(
                    l@,
                    panel,
                ));
            },
        }
    } else {
        assert(entries_view(final(list)@) =~= entries_view(old(list)@) + line_entries(
            l@,
            panel,
        ));
    }
}

/// Whether every line of `output` can be cut after its status characters
/// (the condition for parsing it).
pub fn status_output_sliceable(output: &str) -> (r: bool)
    ensures
        r == status_sliceable(output@),
{
    let chars = to_chars(output);
    let lines = split_lines(chars.as_slice());
    let ghost ls = lines_spec(output@);
    let mut k: usize = 0;
    while k < lines.len()
        invariant
            k <= lines@.len(),
            lines@.len() == ls.len(),
            ls == lines_spec(output@),
            forall|i: int| 0 <= i < lines@.len() ==> #[trigger] lines@[i]@ == ls[i],
            forall|i: int| 0 <= i < k ==> line_sliceable(#[trigger] ls[i]),
        decreases lines@.len() - k,
    {
        let l = lines[k].as_slice();
        assert(l@ == ls[k as int]);
        if !utf8_len_at_most(l, 3) {
            let line = from_char_range(l, 0, l.len());
            assert(l@.subrange(0, l@.len() as int) =~= l@);
            if !line.as_str().is_char_boundary(3) {
                assert(!line_sliceable(ls[k as int]));
                return false;
            }
        }
        k = k + 1;
    }
    true
}

/// Parses `git status --porcelain=v1` output into the three panels.
pub fn parse_status_output(output: &str) -> (r: StatusLists)
    requires
        status_sliceable(output@),
    ensures
        status_lists_of(output@, r),
{
    let chars = to_chars(output);
    let lines = split_lines(chars.as_slice());
    let ghost ls = lines_spec(output@);
    let mut staged: Vec<GitFileEntry> = Vec::new();
    let mut changed: Vec<GitFileEntry> = Vec::new();
    let mut untracked: Vec<GitFileEntry> = Vec::new();
    let mut k: usize = 0;
    assert(ls.take(0) =~= seq![]);
    while k < lines.len()
        invariant
            k <= lines@.len(),
            lines@.len() == ls.len(),
            forall|i: int| 0 <= i < lines@.len() ==> #[trigger] lines@[i]@ == ls[i],
            ls == lines_spec(output@),
            status_sliceable(output@),
            entries_view(staged@) == panel_entries(ls.take(k as int), ScmPanel::Staged),
            entries_view(changed@) == panel_entries(ls.take(k as int), ScmPanel::Changes),
            entries_view(untracked@) == panel_entries(ls.take(k as int), ScmPanel::Untracked),
        decreases lines@.len() - k,
    {
        let l = lines[k].as_slice();
        assert(l@ == ls[k as int]);
        assert(line_sliceable(ls[k as int]));
        proof {
            lemma_panel_entries_step(ls, k as int, ScmPanel::Staged);
            lemma_panel_entries_step(ls, k as int, ScmPanel::Changes);
            lemma_panel_entries_step(ls, k as int, ScmPanel::Untracked);
        }
        push_line_entry(&mut staged, l, ScmPanel::Staged);
        push_line_entry(&mut changed, l, ScmPanel::Changes);
        push_line_entry(&mut untracked, l, ScmPanel::Untracked);
        k = k + 1;
    }
    assert(ls.take(ls.len() as int) =~= ls);
    StatusLists { staged, changed, untracked }
}


proof fn lemma_panel_entries_has_line(ls: Seq<Seq<char>>, i: int, panel: ScmPanel)
    requires
        0 <= i < ls.len(),
        line_entries(ls[i], panel).len() == 1,
    ensures
        panel_entries(ls, panel).contains(line_entries(ls[i], panel)[0]),
    decreases ls.len(),
{
    let a = panel_entries(ls.drop_last(), panel);
    let b = line_entries(ls.last(), panel);
    let x = line_entries(ls[i], panel)[0];
    if i == ls.len() - 1 {
        assert((a + b)[a.len() as int] == x);
    } else {
        assert(ls.drop_last()[i] == ls[i]);
        lemma_panel_entries_has_line(ls.drop_last(), i, panel);
        let k = choose|k: int| 0 <= k < a.len() && a[k] == x;
        assert((a + b)[k] == x);
    }
}

/// Where a status line's entry goes, by its two status characters: an
/// index change with a clean worktree ("M ", "A ", "D ", "R ", "C ") is in
/// the staged list as staged, staged, staged-deleted, renamed and copied;
/// a worktree change with a clean index (" M", " D") is in the changes
/// list as modified and deleted; "??" is in the untracked list; "MM" is
/// in both the staged list (staged and modified) and the changes list
/// (modified); the merge-conflict pairs ("UU", "AA", "DD", "AU", "UA", "DU",
/// "UD") are in the changes list as conflicts. Each entry carries the path
/// the line names. `r` is what [`parse_status_output`]
/// returns for `output`.
pub proof fn lemma_status_line_lands(output: Seq<char>, r: StatusLists, i: int)
    requires
        status_lists_of(output, r),
        0 <= i < lines_spec(output).len(),
        encode_utf8(lines_spec(output)[i]).len() >= 4,
    ensures
        ({
            let ls = lines_spec(output);
            let l = ls[i];
            let x = l[0];
            let y = second_char(l);
            &&& (x == 'M' || x == 'A') && y == ' ' ==> entries_view(r.staged@).contains(
                entry_for(l, GitFileStatus::Staged),
            )
            &&& x == 'D' && y == ' ' ==> entries_view(r.staged@).contains(
                entry_for(l, GitFileStatus::StagedDeleted),
            )
            &&& x == 'R' && y == ' ' ==> entries_view(r.staged@).contains(
                entry_for(l, GitFileStatus::Renamed),
            )
            &&& x == 'C' && y == ' ' ==> entries_view(r.staged@).contains(
                entry_for(l, GitFileStatus::Copied),
            )
            &&& x == ' ' && y == 'M' ==> entries_view(r.changed@).contains(
                entry_for(l, GitFileStatus::Modified),
            )
            &&& x == ' ' && y == 'D' ==> entries_view(r.changed@).contains(
                entry_for(l, GitFileStatus::Deleted),
            )
            &&& x == '?' && y == '?' ==> entries_view(r.untracked@).contains(
                entry_for(l, GitFileStatus::Untracked),
            )
            &&& x == 'M' && y == 'M' ==> entries_view(r.staged@).contains(
                entry_for(l, GitFileStatus::StagedModified),
            ) && entries_view(r.changed@).contains(entry_for(l, GitFileStatus::Modified))
            &&& (x == 'U' && y == 'U' || x == 'A' && y == 'A' || x == 'D' && y == 'D' || x == 'A' && y == 'U'
                || x == 'U' && y == 'A' || x == 'D' && y == 'U' || x == 'U' && y == 'D') ==> entries_view(
                r.changed@,
            ).contains(entry_for(l, GitFileStatus::Conflict))
        }),
{
    let ls = lines_spec(output);
    let l = ls[i];
    if l.len() == 0 {
        assert(encode_utf8(l) =~= Seq::<u8>::empty());
    }
    if line_entries(l, ScmPanel::Staged).len() == 1 {
        lemma_panel_entries_has_line(ls, i, ScmPanel::Staged);
    }
    if line_entries(l, ScmPanel::Changes).len() == 1 {
        lemma_panel_entries_has_line(ls, i, ScmPanel::Changes);
    }
    if line_entries(l, ScmPanel::Untracked).len() == 1 {
        lemma_panel_entries_has_line(ls, i, ScmPanel::Untracked);
    }
}


/// Which lists a status line contributes to, and how many entries: at most
/// one per list; "??" only to the untracked list; "A ", "M ", "D ", "R ",
/// "C " only to the staged list; " M", " D" and the conflict pairs only to
/// the changes list; "!!" (ignored) and lines shorter than four bytes to
/// none.
pub proof fn lemma_status_line_exclusive(l: Seq<char>)
    ensures
        line_entries(l, ScmPanel::Staged).len() <= 1,
        line_entries(l, ScmPanel::Changes).len() <= 1,
        line_entries(l, ScmPanel::Untracked).len() <= 1,
        encode_utf8(l).len() < 4 ==> line_entries(l, ScmPanel::Staged).len() == 0
            && line_entries(l, ScmPanel::Changes).len() == 0 && line_entries(l, ScmPanel::Untracked).len() == 0,
        encode_utf8(l).len() >= 4 ==> ({
            let x = l[0];
            let y = second_char(l);
            &&& x == '?' && y == '?' ==> line_entries(l, ScmPanel::Staged).len() == 0
                && line_entries(l, ScmPanel::Changes).len() == 0
            &&& x == '!' && y == '!' ==> line_entries(l, ScmPanel::Staged).len() == 0
                && line_entries(l, ScmPanel::Changes).len() == 0 && line_entries(l, ScmPanel::Untracked).len() == 0
            &&& (x == 'A' || x == 'M' || x == 'D' || x == 'R' || x == 'C') && y == ' ' ==> line_entries(
                l,
                ScmPanel::Changes,
            ).len() == 0 && line_entries(l, ScmPanel::Untracked).len() == 0
            &&& x == ' ' && (y == 'M' || y == 'D') ==> line_entries(l, ScmPanel::Staged).len() == 0
                && line_entries(l, ScmPanel::Untracked).len() == 0
            &&& (x == 'U' && y == 'U' || x == 'A' && y == 'A' || x == 'D' && y == 'D' || x == 'A' && y == 'U'
                || x == 'U' && y == 'A' || x == 'D' && y == 'U' || x == 'U' && y == 'D') ==> line_entries(
                l,
                ScmPanel::Staged,
            ).len() == 0 && line_entries(l, ScmPanel::Untracked).len() == 0
        }),
{
    if l.len() == 0 {
        assert(encode_utf8(l) =~= Seq::<u8>::empty());
    }
}

/// The path a status line names: with no " -> " in the text after the
/// status characters, all of that text and no original path; with exactly
/// one, the text after the arrow is the path and the text before it the
/// original path (a rename or copy).
pub proof fn lemma_rename_paths(p: Seq<char>, i: int)
    ensures
        (forall|k: int| !occurs_at(p, seq![' ', '-', '>', ' '], k)) ==> entry_path(p) == p && entry_original(p) is None,
        occurs_at(p, seq![' ', '-', '>', ' '], i) && (forall|k: int| k != i ==> !occurs_at(p, seq![' ', '-', '>', ' '], k))
            ==> entry_path(p) == p.subrange(i + 4, p.len() as int) && entry_original(p) == Some(p.subrange(0, i)),
{
    assert(arrow() == seq![' ', '-', '>', ' ']);
    if occurs_at(p, arrow(), i) && (forall|k: int| k != i ==> !occurs_at(p, arrow(), k)) {
        assert(0 <= i);
        lemma_find_spec_some(p, arrow(), 0, i);
        if exists|j: int| #[trigger] is_first_occ(p, arrow(), i + 4, j) {
            let j = choose|j: int| #[trigger] is_first_occ(p, arrow(), i + 4, j);
            assert(j != i);
        }
    }
}
} // verus!

verus! {

// ---------------------------------------------------------------------------
// Command results and refresh data
// ---------------------------------------------------------------------------

/// What a finished git command reported.
pub struct CommandOutcome {
    /// Whether the command exited successfully
    pub success: bool,
    /// Its standard output
    pub stdout: String,
    /// Its standard error
    pub stderr: String,
}

/// Errors of the Git SCM view.
#[derive(Debug)]
pub enum GitScmError {
    /// `git rev-parse --show-toplevel` failed: not inside a repository.
    NotARepository,
}

/// The repository root reported by `git rev-parse --show-toplevel`.
pub fn repo_root_from(outcome: &CommandOutcome) -> (r: Result<String, GitScmError>)
    ensures
        match r {
            Ok(root) => outcome.success && root@ == trim(outcome.stdout@),
            Err(_) => !outcome.success,
        },
{
    if !outcome.success {
        Err(GitScmError::NotARepository)
    } else {
        Ok(trim_str(outcome.stdout.as_str()))
    }
}

/// The outputs of the commands that refresh the view.
pub struct GitRefreshData {
    /// stdout of `git branch --show-current`
    pub branch_output: String,
    /// stdout of `git rev-parse --short HEAD` (needed for a detached HEAD)
    pub short_sha_output: String,
    /// stdout of `git rev-parse --abbrev-ref @{u}`, when that succeeded
    pub upstream_output: Option<String>,
    /// stdout of `git rev-list --left-right --count @{u}...HEAD`, when that succeeded
    pub counts_output: Option<String>,
    /// stdout of `git status --porcelain=v1`
    pub status_output: String,
}

/// Whether the branch output shows a detached HEAD, so that the short SHA
/// is needed.
pub fn needs_short_sha(branch_output: &str) -> (r: bool)
    ensures
        r == (trim(branch_output@).len() == 0),
{
    let t = trim_str(branch_output);
    t.as_str().unicode_len() == 0
}

/// The branch label: the current branch, or `HEAD:<sha>` when detached.
pub open spec fn branch_label(branch_output: Seq<char>, short_sha_output: Seq<char>) -> Seq<char> {
    if trim(branch_output).len() == 0 {
        "HEAD:"@ + trim(short_sha_output)
    } else {
        trim(branch_output)
    }
}

/// The (behind, ahead) counts of `git rev-list --left-right --count`, when
/// the output has exactly two fields; an unparsable field counts as 0.
pub open spec fn ahead_behind(counts: Seq<char>) -> Option<(nat, nat)> {
    let ws = words(counts);
    if ws.len() == 2 {
        Some(
            (
                match parse_usize_spec(ws[0]) {
                    Some(n) => n,
                    None => 0,
                },
                match parse_usize_spec(ws[1]) {
                    Some(n) => n,
                    None => 0,
                },
            ),
        )
    } else {
        None
    }
}

fn parse_or_zero(v: &[char]) -> (r: usize)
    ensures
        r == match parse_usize_spec(v@) {
            Some(n) => n,
            None => 0,
        },
{
    match parse_usize(v) {
        Some(n) => n,
        None => 0,
    }
}

fn parse_counts(counts: &str) -> (r: Option<(usize, usize)>)
    ensures
        match r {
            Some((b, a)) => ahead_behind(counts@) == Some((b as nat, a as nat)),
            None => ahead_behind(counts@) is None,
        },
{
    let chars = to_chars(counts);
    let ws = split_words(chars.as_slice());
    if ws.len() == 2 {
        let b = parse_or_zero(ws[0].as_slice());
        let a = parse_or_zero(ws[1].as_slice());
        Some((b, a))
    } else {
        None
    }
}

// ---------------------------------------------------------------------------
// The view state
// ---------------------------------------------------------------------------

/// Rows of the file list that are visible at once.
pub open spec fn visible_rows() -> u16 {
    15
}

/// Scroll offset after moving the cursor: the cursor row (truncated to
/// 16 bits) is kept inside a window of `height` rows.
pub open spec fn scroll_for(scroll: u16, cursor: usize, height: u16) -> u16 {
    let c = (cursor % 65536) as u16;
    if c < scroll {
        c
    } else if c >= scroll + height {
        (c - (height - 1)) as u16
    } else {
        scroll
    }
}

/// The paths of the selected entries, in list order.
pub open spec fn selected_paths(list: Seq<GitFileEntry>) -> Seq<Seq<char>>
    decreases list.len(),
{
    if list.len() == 0 {
        seq![]
    } else {
        selected_paths(list.drop_last()) + if list.last().selected {
            seq![list.last().path@]
        } else {
            seq![]
        }
    }
}

/// `e` with its selection flag set to `b`.
pub open spec fn with_selected(e: GitFileEntryView, b: bool) -> GitFileEntryView {
    GitFileEntryView { path: e.path, status: e.status, original_path: e.original_path, selected: b }
}

/// State for the Git SCM view.
#[derive(Debug)]
pub struct GitScmState {
    /// Repository root path
    pub repo_root: String,
    /// Current branch name
    pub current_branch: String,
    /// Remote tracking branch (if any)
    pub upstream_branch: Option<String>,
    /// Ahead/behind counts
    pub ahead: usize,
    pub behind: usize,
    /// Staged files
    pub staged_files: Vec<GitFileEntry>,
    /// Changed (unstaged) files
    pub changed_files: Vec<GitFileEntry>,
    /// Untracked files
    pub untracked_files: Vec<GitFileEntry>,
    /// Current panel
    pub current_panel: ScmPanel,
    /// Cursor index within current panel
    pub cursor_index: usize,
    /// Scroll offset
    pub scroll: u16,
    /// Operation mode
    pub mode: GitOperationMode,
    /// Commit message being typed
    pub commit_message: String,
    /// Status message to display
    pub status_message: Option<String>,
    /// Error message
    pub error_message: Option<String>,
    /// Last refresh time
    pub last_refresh: std::time::Instant,
}

/// The state's fields other than the three file lists, cursor and scroll.
pub open spec fn same_settings(a: GitScmState, b: GitScmState) -> bool {
    &&& a.repo_root == b.repo_root
    &&& a.current_branch == b.current_branch
    &&& a.upstream_branch == b.upstream_branch
    &&& a.ahead == b.ahead
    &&& a.behind == b.behind
    &&& a.current_panel == b.current_panel
    &&& a.mode == b.mode
    &&& a.commit_message == b.commit_message
    &&& a.status_message == b.status_message
    &&& a.error_message == b.error_message
    &&& a.last_refresh == b.last_refresh
}

pub open spec fn same_lists(a: GitScmState, b: GitScmState) -> bool {
    &&& a.staged_files == b.staged_files
    &&& a.changed_files == b.changed_files
    &&& a.untracked_files == b.untracked_files
}

impl GitScmState {
    /// The file list shown by `panel`.
    pub open spec fn list_of(self, panel: ScmPanel) -> Seq<GitFileEntry> {
        match panel {
            ScmPanel::Staged => self.staged_files@,
            ScmPanel::Changes => self.changed_files@,
            ScmPanel::Untracked => self.untracked_files@,
        }
    }

    /// The file list of the current panel.
    pub open spec fn current(self) -> Seq<GitFileEntry> {
        self.list_of(self.current_panel)
    }

    /// The cursor after clamping it into the current list.
    pub open spec fn clamped_cursor(self) -> usize {
        let len = self.current().len();
        if len == 0 {
            0
        } else if self.cursor_index >= len {
            (len - 1) as usize
        } else {
            self.cursor_index
        }
    }

    /// Get the list for the current panel.
    pub fn current_list(&self) -> (r: &[GitFileEntry])
        ensures
            r@ == self.current(),
    {
        match self.current_panel {
            ScmPanel::Staged => self.staged_files.as_slice(),
            ScmPanel::Changes => self.changed_files.as_slice(),
            ScmPanel::Untracked => self.untracked_files.as_slice(),
        }
    }

    /// Get the currently selected file entry.
    pub fn current_entry(&self) -> (r: Option<&GitFileEntry>)
        ensures
            match r {
                Some(e) => self.cursor_index < self.current().len() && *e == self.current()[self.cursor_index as int],
                None => self.cursor_index >= self.current().len(),
            },
    {
        let list = self.current_list();
        if self.cursor_index < list.len() {
            Some(&list[self.cursor_index])
        } else {
            None
        }
    }

    /// Adjust cursor to be within bounds.
    fn adjust_cursor(&mut self)
        ensures
            final(self).cursor_index == old(self).clamped_cursor(),
            final(self).scroll == old(self).scroll,
            same_settings(*final(self), *old(self)),
            same_lists(*final(self), *old(self)),
    {
        let len = self.current_list().len();
        if len == 0 {
            self.cursor_index = 0;
        } else if self.cursor_index >= len {
            self.cursor_index = len - 1;
        }
    }

    /// Keep the cursor inside the visible window.
    fn adjust_scroll(&mut self)
        ensures
            final(self).scroll == scroll_for(old(self).scroll, old(self).cursor_index, visible_rows()),
            final(self).cursor_index == old(self).cursor_index,
            same_settings(*final(self), *old(self)),
            same_lists(*final(self), *old(self)),
    {
        let cursor = (self.cursor_index % 65536) as u16;
        if cursor < self.scroll {
            self.scroll = cursor;
        } else if (cursor as u32) >= (self.scroll as u32) + 15 {
            self.scroll = cursor - 14;
        }
    }

    /// Move cursor up.
    pub fn cursor_up(&mut self)
        ensures
            final(self).cursor_index == (if old(self).cursor_index > 0 {
                old(self).cursor_index - 1
            } else {
                0
            }),
            final(self).scroll == scroll_for(old(self).scroll, final(self).cursor_index, visible_rows()),
            same_settings(*final(self), *old(self)),
            same_lists(*final(self), *old(self)),
    {
        if self.cursor_index > 0 {
            self.cursor_index = self.cursor_index - 1;
        }
        self.adjust_scroll();
    }

    /// Move cursor down.
    pub fn cursor_down(&mut self)
        ensures
            final(self).cursor_index == (if old(self).cursor_index + 1 < old(self).current().len() {
                old(self).cursor_index + 1
            } else {
                old(self).cursor_index as int
            }),
            final(self).scroll == scroll_for(old(self).scroll, final(self).cursor_index, visible_rows()),
            same_settings(*final(self), *old(self)),
            same_lists(*final(self), *old(self)),
    {
        let len = self.current_list().len();
        if self.cursor_index < len && self.cursor_index + 1 < len {
            self.cursor_index = self.cursor_index + 1;
        }
        self.adjust_scroll();
    }

    /// Page up.
    pub fn page_up(&mut self, page_size: usize)
        ensures
            final(self).cursor_index == (if old(self).cursor_index >= page_size {
                old(self).cursor_index - page_size
            } else {
                0
            }),
            final(self).scroll == scroll_for(old(self).scroll, final(self).cursor_index, visible_rows()),
            same_settings(*final(self), *old(self)),
            same_lists(*final(self), *old(self)),
    {
        self.cursor_index = self.cursor_index.saturating_sub(page_size);
        self.adjust_scroll();
    }

    /// Page down.
    pub fn page_down(&mut self, page_size: usize)
        ensures
            ({
                let len = old(self).current().len();
                let last = if len == 0 {
                    0
                } else {
                    len - 1
                };
                final(self).cursor_index == (if old(self).cursor_index + page_size < last {
                    old(self).cursor_index + page_size
                } else {
                    last
                })
            }),
            final(self).scroll == scroll_for(old(self).scroll, final(self).cursor_index, visible_rows()),
            same_settings(*final(self), *old(self)),
            same_lists(*final(self), *old(self)),
    {
        let len = self.current_list().len();
        let last = len.saturating_sub(1);
        let target = self.cursor_index.saturating_add(page_size);
        self.cursor_index = if target < last {
            target
        } else {
            last
        };
        self.adjust_scroll();
    }

    /// Switch to next panel.
    pub fn next_panel(&mut self)
        ensures
            final(self).current_panel == old(self).current_panel.next_spec(),
            final(self).cursor_index == 0,
            final(self).scroll == 0,
            same_lists(*final(self), *old(self)),
            final(self).repo_root == old(self).repo_root,
            final(self).current_branch == old(self).current_branch,
            final(self).upstream_branch == old(self).upstream_branch,
            final(self).ahead == old(self).ahead,
            final(self).behind == old(self).behind,
            final(self).mode == old(self).mode,
            final(self).commit_message == old(self).commit_message,
            final(self).status_message == old(self).status_message,
            final(self).error_message == old(self).error_message,
            final(self).last_refresh == old(self).last_refresh,
    {
        self.current_panel = match self.current_panel {
            ScmPanel::Staged => ScmPanel::Changes,
            ScmPanel::Changes => ScmPanel::Untracked,
            ScmPanel::Untracked => ScmPanel::Staged,
        };
        self.cursor_index = 0;
        self.scroll = 0;
    }

    /// Switch to previous panel.
    pub fn prev_panel(&mut self)
        ensures
            final(self).current_panel == old(self).current_panel.prev_spec(),
            final(self).cursor_index == 0,
            final(self).scroll == 0,
            same_lists(*final(self), *old(self)),
            final(self).repo_root == old(self).repo_root,
            final(self).current_branch == old(self).current_branch,
            final(self).upstream_branch == old(self).upstream_branch,
            final(self).ahead == old(self).ahead,
            final(self).behind == old(self).behind,
            final(self).mode == old(self).mode,
            final(self).commit_message == old(self).commit_message,
            final(self).status_message == old(self).status_message,
            final(self).error_message == old(self).error_message,
            final(self).last_refresh == old(self).last_refresh,
    {
        self.current_panel = match self.current_panel {
            ScmPanel::Staged => ScmPanel::Untracked,
            ScmPanel::Changes => ScmPanel::Staged,
            ScmPanel::Untracked => ScmPanel::Changes,
        };
        self.cursor_index = 0;
        self.scroll = 0;
    }
}

/// Flips the selection flag of `list[idx]`, if it exists.
fn toggle_at(list: &mut Vec<GitFileEntry>, idx: usize)
    ensures
        final(list)@.len() == old(list)@.len(),
        forall|i: int|
            0 <= i < final(list)@.len() ==> #[trigger] final(list)@[i]@ == (if i == idx {
                with_selected(old(list)@[i]@, !old(list)@[i].selected)
            } else {
                old(list)@[i]@
            }),
{
    if idx < list.len() {
        let mut e = list.remove(idx);
        e.selected = !e.selected;
        list.insert(idx, e);
    }
}

/// Sets the selection flag of every entry of `list` to `val`.
fn set_all_selected(list: &mut Vec<GitFileEntry>, val: bool)
    ensures
        final(list)@.len() == old(list)@.len(),
        forall|i: int|
            0 <= i < final(list)@.len() ==> #[trigger] final(list)@[i]@ == with_selected(
                old(list)@[i]@,
                val,
            ),
{
    let n = list.len();
    let mut i: usize = 0;
    while i < n
        invariant
            n == old(list)@.len(),
            list@.len() == n,
            i <= n,
            forall|k: int| 0 <= k < i ==> #[trigger] list@[k]@ == with_selected(old(list)@[k]@, val),
            forall|k: int| i <= k < n ==> #[trigger] list@[k] == old(list)@[k],
        decreases n - i,
    {
        let mut e = list.remove(i);
        e.selected = val;
        list.insert(i, e);
        i = i + 1;
    }
}

impl GitScmState {
    /// Toggle selection on current entry.
    pub fn toggle_selection(&mut self)
        ensures
            final(self).current().len() == old(self).current().len(),
            forall|i: int|
                0 <= i < final(self).current().len() ==> #[trigger] final(self).current()[i]@ == (
                if i == old(self).cursor_index {
                    with_selected(old(self).current()[i]@, !old(self).current()[i].selected)
                } else {
                    old(self).current()[i]@
                }),
            forall|p: ScmPanel| p != old(self).current_panel ==> final(self).list_of(p) == old(self).list_of(p),
            final(self).cursor_index == old(self).cursor_index,
            final(self).scroll == old(self).scroll,
            same_settings(*final(self), *old(self)),
    {
        let idx = self.cursor_index;
        match self.current_panel {
            ScmPanel::Staged => toggle_at(&mut self.staged_files, idx),
            ScmPanel::Changes => toggle_at(&mut self.changed_files, idx),
            ScmPanel::Untracked => toggle_at(&mut self.untracked_files, idx),
        }
    }

    fn set_current_selected(&mut self, val: bool)
        ensures
            final(self).current().len() == old(self).current().len(),
            forall|i: int|
                0 <= i < final(self).current().len() ==> #[trigger] final(self).current()[i]@
                    == with_selected(old(self).current()[i]@, val),
            forall|p: ScmPanel| p != old(self).current_panel ==> final(self).list_of(p) == old(self).list_of(p),
            final(self).cursor_index == old(self).cursor_index,
            final(self).scroll == old(self).scroll,
            same_settings(*final(self), *old(self)),
    {
        match self.current_panel {
            ScmPanel::Staged => set_all_selected(&mut self.staged_files, val),
            ScmPanel::Changes => set_all_selected(&mut self.changed_files, val),
            ScmPanel::Untracked => set_all_selected(&mut self.untracked_files, val),
        }
    }

    /// Select all in current panel.
    pub fn select_all(&mut self)
        ensures
            final(self).current().len() == old(self).current().len(),
            forall|i: int|
                0 <= i < final(self).current().len() ==> #[trigger] final(self).current()[i]@
                    == with_selected(old(self).current()[i]@, true),
            forall|p: ScmPanel| p != old(self).current_panel ==> final(self).list_of(p) == old(self).list_of(p),
            final(self).cursor_index == old(self).cursor_index,
            final(self).scroll == old(self).scroll,
            same_settings(*final(self), *old(self)),
    {
        self.set_current_selected(true);
    }

    /// Clear selection in current panel.
    pub fn clear_selection(&mut self)
        ensures
            final(self).current().len() == old(self).current().len(),
            forall|i: int|
                0 <= i < final(self).current().len() ==> #[trigger] final(self).current()[i]@
                    == with_selected(old(self).current()[i]@, false),
            forall|p: ScmPanel| p != old(self).current_panel ==> final(self).list_of(p) == old(self).list_of(p),
            final(self).cursor_index == old(self).cursor_index,
            final(self).scroll == old(self).scroll,
            same_settings(*final(self), *old(self)),
    {
        self.set_current_selected(false);
    }

    /// Get total change count.
    pub fn total_changes(&self) -> (r: usize)
        requires
            self.staged_files@.len() + self.changed_files@.len() + self.untracked_files@.len()
                <= usize::MAX,
        ensures
            r == self.staged_files@.len() + self.changed_files@.len() + self.untracked_files@.len(),
    {
        self.staged_files.len() + self.changed_files.len() + self.untracked_files.len()
    }

    /// Check if there are uncommitted changes.
    pub fn has_uncommitted_changes(&self) -> (r: bool)
        ensures
            r == (self.staged_files@.len() > 0 || self.changed_files@.len() > 0),
    {
        !self.staged_files.is_empty() || !self.changed_files.is_empty()
    }

    /// Clear status and error messages.
    pub fn clear_messages(&mut self)
        ensures
            final(self).status_message is None,
            final(self).error_message is None,
            final(self).mode == old(self).mode,
            final(self).commit_message == old(self).commit_message,
            final(self).current_panel == old(self).current_panel,
            final(self).cursor_index == old(self).cursor_index,
            same_lists(*final(self), *old(self)),
    {
        self.status_message = None;
        self.error_message = None;
    }

    /// Start commit message entry.
    pub fn start_commit(&mut self)
        ensures
            old(self).staged_files@.len() == 0 ==> {
                &&& opt_str_view(final(self).error_message) == Some("Nothing staged to commit"@)
                &&& final(self).mode == old(self).mode
                &&& final(self).commit_message == old(self).commit_message
            },
            old(self).staged_files@.len() > 0 ==> {
                &&& final(self).mode == GitOperationMode::CommitMessage
                &&& final(self).commit_message@.len() == 0
                &&& final(self).error_message == old(self).error_message
            },
            same_lists(*final(self), *old(self)),
    {
        if self.staged_files.is_empty() {
            self.error_message = Some("Nothing staged to commit".to_string());
            return ;
        }
        self.mode = GitOperationMode::CommitMessage;
        self.commit_message = String::new();
    }
}

} // verus!

verus! {

/// The paths an operation acts on: the selected entries of `list`, or the
/// entry under the cursor when none is selected.
pub open spec fn targets_in(list: Seq<GitFileEntry>, cursor: usize) -> Seq<Seq<char>> {
    if selected_paths(list).len() > 0 {
        selected_paths(list)
    } else if cursor < list.len() {
        seq![list[cursor as int].path@]
    } else {
        seq![]
    }
}

pub open spec fn strings_view(v: Seq<String>) -> Seq<Seq<char>> {
    v.map_values(|s: String| s@)
}

fn selected_paths_of(list: &[GitFileEntry]) -> (r: Vec<String>)
    ensures
        strings_view(r@) == selected_paths(list@),
{
    let mut out: Vec<String> = Vec::new();
    let mut i: usize = 0;
    assert(list@.take(0) =~= seq![]);
    while i < list.len()
        invariant
            i <= list@.len(),
            strings_view(out@) == selected_paths(list@.take(i as int)),
        decreases list@.len() - i,
    {
        assert(list@.take(i + 1).drop_last() =~= list@.take(i as int));
        if list[i].selected {
            out.push(list[i].path.clone());
        }
        assert(strings_view(out@) =~= selected_paths(list@.take(i + 1)));
        i = i + 1;
    }
    assert(list@.take(list@.len() as int) =~= list@);
    out
}

fn targets_of(list: &[GitFileEntry], cursor: usize) -> (r: Vec<String>)
    ensures
        strings_view(r@) == targets_in(list@, cursor),
{
    let selected = selected_paths_of(list);
    if selected.len() > 0 {
        selected
    } else if cursor < list.len() {
        let mut v: Vec<String> = Vec::new();
        v.push(list[cursor].path.clone());
        assert(strings_view(v@) =~= targets_in(list@, cursor));
        v
    } else {
        let v: Vec<String> = Vec::new();
        assert(strings_view(v@) =~= targets_in(list@, cursor));
        v
    }
}

fn command_with_files(prefix: Vec<String>, files: &[String]) -> (r: Vec<String>)
    ensures
        strings_view(r@) == strings_view(prefix@) + strings_view(files@),
{
    let mut out = prefix;
    let ghost start = out@;
    let mut i: usize = 0;
    while i < files.len()
        invariant
            i <= files@.len(),
            strings_view(out@) == strings_view(start) + strings_view(files@.take(i as int)),
        decreases files@.len() - i,
    {
        let f = files[i].clone();
        assert(f@ == files@[i as int]@);
        let ghost before = out@;
        out.push(f);
        assert(strings_view(out@) =~= strings_view(before).push(f@));
        assert(strings_view(files@.take(i + 1)) =~= strings_view(files@.take(i as int)).push(f@));
        assert(files@.take(i + 1) =~= files@.take(i as int).push(files@[i as int]));
        assert(strings_view(out@) =~= strings_view(start) + strings_view(files@.take(i + 1)));
        i = i + 1;
    }
    assert(files@.take(files@.len() as int) =~= files@);
    out
}

fn words_vec2(a: &str, b: &str) -> (r: Vec<String>)
    ensures
        strings_view(r@) == seq![a@, b@],
{
    let mut v: Vec<String> = Vec::new();
    v.push(a.to_string());
    v.push(b.to_string());
    assert(strings_view(v@) =~= seq![a@, b@]);
    v
}

fn words_vec3(a: &str, b: &str, c: &str) -> (r: Vec<String>)
    ensures
        strings_view(r@) == seq![a@, b@, c@],
{
    let mut v: Vec<String> = Vec::new();
    v.push(a.to_string());
    v.push(b.to_string());
    v.push(c.to_string());
    assert(strings_view(v@) =~= seq![a@, b@, c@]);
    v
}

/// `message` followed by the decimal count and ` file(s)`.
pub open spec fn count_message(prefix: Seq<char>, n: nat) -> Seq<char> {
    prefix + decimal(n) + " file(s)"@
}

fn make_count_message(prefix: &str, n: usize) -> (r: String)
    ensures
        r@ == count_message(prefix@, n as nat),
{
    let mut s = prefix.to_string();
    let d = usize_to_string(n);
    push_str(&mut s, d.as_str());
    push_str(&mut s, " file(s)");
    s
}

fn concat_message(prefix: &str, detail: &str) -> (r: String)
    ensures
        r@ == prefix@ + detail@,
{
    let mut s = prefix.to_string();
    push_str(&mut s, detail);
    s
}

impl GitScmState {
    /// The files `stage_current` acts on: in the changes and untracked
    /// panels the selected files, or the file under the cursor.
    pub open spec fn stage_targets_spec(self) -> Seq<Seq<char>> {
        match self.current_panel {
            ScmPanel::Staged => seq![],
            _ => targets_in(self.current(), self.cursor_index),
        }
    }

    /// The files `unstage_current` acts on: in the staged panel the
    /// selected files, or the file under the cursor.
    pub open spec fn unstage_targets_spec(self) -> Seq<Seq<char>> {
        match self.current_panel {
            ScmPanel::Staged => targets_in(self.current(), self.cursor_index),
            _ => seq![],
        }
    }

    /// Files to stage for the current panel and cursor.
    pub fn stage_targets(&self) -> (r: Vec<String>)
        ensures
            strings_view(r@) == self.stage_targets_spec(),
    {
        match self.current_panel {
            ScmPanel::Staged => {
                let v: Vec<String> = Vec::new();
                assert(strings_view(v@) =~= seq![]);
                v
            },
            _ => targets_of(self.current_list(), self.cursor_index),
        }
    }

    /// Files to unstage for the current panel and cursor.
    pub fn unstage_targets(&self) -> (r: Vec<String>)
        ensures
            strings_view(r@) == self.unstage_targets_spec(),
    {
        match self.current_panel {
            ScmPanel::Staged => targets_of(self.current_list(), self.cursor_index),
            _ => {
                let v: Vec<String> = Vec::new();
                assert(strings_view(v@) =~= seq![]);
                v
            },
        }
    }

    /// The file `discard_current` acts on: the entry under the cursor in
    /// the changes panel.
    pub fn discard_target(&self) -> (r: Option<String>)
        ensures
            opt_str_view(r) == (if self.current_panel == ScmPanel::Changes && self.cursor_index
                < self.current().len() {
                Some(self.current()[self.cursor_index as int].path@)
            } else {
                None
            }),
    {
        match self.current_panel {
            ScmPanel::Changes => match self.current_entry() {
                Some(e) => Some(e.path.clone()),
                None => None,
            },
            _ => None,
        }
    }

    /// Records the outcome of a command: the error message on failure,
    /// the status message on success.
    fn record(&mut self, outcome: &CommandOutcome, failure_prefix: &str, success_message: String)
        ensures
            !outcome.success ==> opt_str_view(final(self).error_message) == Some(
                failure_prefix@ + outcome.stderr@,
            ) && final(self).status_message == old(self).status_message,
            outcome.success ==> opt_str_view(final(self).status_message) == Some(
                success_message@,
            ) && final(self).error_message == old(self).error_message,
            final(self).mode == old(self).mode,
            final(self).commit_message == old(self).commit_message,
            final(self).current_panel == old(self).current_panel,
            final(self).cursor_index == old(self).cursor_index,
            final(self).scroll == old(self).scroll,
            same_lists(*final(self), *old(self)),
    {
        if !outcome.success {
            self.error_message = Some(concat_message(failure_prefix, outcome.stderr.as_str()));
        } else {
            self.status_message = Some(success_message);
        }
    }
}

/// The question asked before discarding changes to `n` files.
pub open spec fn discard_prompt(n: nat) -> Seq<char> {
    count_message("Discard changes to "@, n) + "? (y/n)"@
}

impl GitScmState {
    /// Ask for confirmation before discarding the changes to `files`.
    pub fn ask_discard(&mut self, files: Vec<String>)
        ensures
            match final(self).mode {
                GitOperationMode::Confirm { message, action } => {
                    &&& message@ == discard_prompt(files@.len() as nat)
                    &&& action == GitAction::Discard(files)
                },
                _ => false,
            },
            final(self).commit_message == old(self).commit_message,
            final(self).status_message == old(self).status_message,
            final(self).error_message == old(self).error_message,
            final(self).current_panel == old(self).current_panel,
            final(self).cursor_index == old(self).cursor_index,
            final(self).scroll == old(self).scroll,
            same_lists(*final(self), *old(self)),
    {
        let mut message = make_count_message("Discard changes to ", files.len());
        push_str(&mut message, "? (y/n)");
        self.mode = GitOperationMode::Confirm { message, action: GitAction::Discard(files) };
    }
}

/// `git add -- <files>`.
pub fn stage_command(files: &[String]) -> (r: Vec<String>)
    ensures
        strings_view(r@) == seq!["add"@, "--"@] + strings_view(files@),
{
    command_with_files(words_vec2("add", "--"), files)
}

/// `git reset HEAD -- <files>`.
pub fn unstage_command(files: &[String]) -> (r: Vec<String>)
    ensures
        strings_view(r@) == seq!["reset"@, "HEAD"@, "--"@] + strings_view(files@),
{
    command_with_files(words_vec3("reset", "HEAD", "--"), files)
}

/// `git checkout -- <files>`.
pub fn discard_command(files: &[String]) -> (r: Vec<String>)
    ensures
        strings_view(r@) == seq!["checkout"@, "--"@] + strings_view(files@),
{
    command_with_files(words_vec2("checkout", "--"), files)
}

} // verus!

verus! {

/// `cursor` clamped into a list of `len` entries.
pub open spec fn clamp_cursor(cursor: usize, len: nat) -> usize {
    if len == 0 {
        0
    } else if cursor >= len {
        (len - 1) as usize
    } else {
        cursor
    }
}

/// The upstream, ahead and behind values a refresh computes.
pub open spec fn upstream_after(data: GitRefreshData, old_ahead: usize, old_behind: usize) -> (
    Option<Seq<char>>,
    nat,
    nat,
) {
    match data.upstream_output {
        Some(u) => {
            let (behind, ahead) = match data.counts_output {
                Some(c) => match ahead_behind(c@) {
                    Some((b, a)) => (b, a),
                    None => (old_behind as nat, old_ahead as nat),
                },
                None => (old_behind as nat, old_ahead as nat),
            };
            (Some(trim(u@)), ahead, behind)
        },
        None => (None, 0, 0),
    }
}

impl GitScmState {
    /// What a refresh with `data` at time `now` produces from `old`.
    pub open spec fn refreshed_from(
        self,
        old: GitScmState,
        data: GitRefreshData,
        now: std::time::Instant,
    ) -> bool {
        let up = upstream_after(data, old.ahead, old.behind);
        let lines = lines_spec(data.status_output@);
        &&& self.current_branch@ == branch_label(data.branch_output@, data.short_sha_output@)
        &&& opt_str_view(self.upstream_branch) == up.0
        &&& self.ahead == up.1
        &&& self.behind == up.2
        &&& entries_view(self.staged_files@) == panel_entries(lines, ScmPanel::Staged)
        &&& entries_view(self.changed_files@) == panel_entries(lines, ScmPanel::Changes)
        &&& entries_view(self.untracked_files@) == panel_entries(lines, ScmPanel::Untracked)
        &&& self.cursor_index == clamp_cursor(old.cursor_index, self.current().len())
        &&& self.last_refresh == now
        &&& self.error_message is None
        &&& self.repo_root == old.repo_root
        &&& self.current_panel == old.current_panel
        &&& self.scroll == old.scroll
        &&& self.mode == old.mode
        &&& self.commit_message == old.commit_message
        &&& self.status_message == old.status_message
    }

    fn refresh_branch_info(&mut self, data: &GitRefreshData)
        ensures
            final(self).current_branch@ == branch_label(data.branch_output@, data.short_sha_output@),
            opt_str_view(final(self).upstream_branch) == upstream_after(*data, old(self).ahead, old(self).behind).0,
            final(self).ahead == upstream_after(*data, old(self).ahead, old(self).behind).1,
            final(self).behind == upstream_after(*data, old(self).ahead, old(self).behind).2,
            final(self).repo_root == old(self).repo_root,
            final(self).current_panel == old(self).current_panel,
            final(self).cursor_index == old(self).cursor_index,
            final(self).scroll == old(self).scroll,
            final(self).mode == old(self).mode,
            final(self).commit_message == old(self).commit_message,
            final(self).status_message == old(self).status_message,
            final(self).error_message == old(self).error_message,
            final(self).last_refresh == old(self).last_refresh,
            same_lists(*final(self), *old(self)),
    {
        let branch = trim_str(data.branch_output.as_str());
        if branch.as_str().unicode_len() == 0 {
            let mut label = "HEAD:".to_string();
            let sha = trim_str(data.short_sha_output.as_str());
            push_str(&mut label, sha.as_str());
            self.current_branch = label;
        } else {
            self.current_branch = branch;
        }
        match &data.upstream_output {
            Some(u) => {
                self.upstream_branch = Some(trim_str(u.as_str()));
                match &data.counts_output {
                    Some(c) => match parse_counts(c.as_str()) {
                        Some((b, a)) => {
                            self.behind = b;
                            self.ahead = a;
                        },
                        None => {},
                    },
                    None => {},
                }
            },
            None => {
                self.upstream_branch = None;
                self.ahead = 0;
                self.behind = 0;
            },
        }
    }

    /// Refresh all git status information from the commands' outputs.
    pub fn refresh(&mut self, data: &GitRefreshData, now: std::time::Instant)
        requires
            status_sliceable(data.status_output@),
        ensures
            final(self).refreshed_from(*old(self), *data, now),
    {
        self.refresh_branch_info(data);
        let lists = parse_status_output(data.status_output.as_str());
        self.staged_files = lists.staged;
        self.changed_files = lists.changed;
        self.untracked_files = lists.untracked;
        self.adjust_cursor();
        self.last_refresh = now;
        self.error_message = None;
    }

    /// Create the state for the repository at `repo_root` and fill it from
    /// the refresh commands' outputs.
    pub fn new(repo_root: String, data: &GitRefreshData, now: std::time::Instant) -> (r: Self)
        requires
            status_sliceable(data.status_output@),
        ensures
            r.repo_root == repo_root,
            r.current_panel == ScmPanel::Changes,
            r.mode == GitOperationMode::Browse,
            r.commit_message@.len() == 0,
            r.status_message is None,
            r.scroll == 0,
            r.current_branch@ == branch_label(data.branch_output@, data.short_sha_output@),
            opt_str_view(r.upstream_branch) == upstream_after(*data, 0, 0).0,
            r.ahead == upstream_after(*data, 0, 0).1,
            r.behind == upstream_after(*data, 0, 0).2,
            entries_view(r.staged_files@) == panel_entries(lines_spec(data.status_output@), ScmPanel::Staged),
            entries_view(r.changed_files@) == panel_entries(lines_spec(data.status_output@), ScmPanel::Changes),
            entries_view(r.untracked_files@) == panel_entries(lines_spec(data.status_output@), ScmPanel::Untracked),
            r.cursor_index == 0,
            r.last_refresh == now,
            r.error_message is None,
    {
        let mut state = GitScmState {
            repo_root,
            current_branch: String::new(),
            upstream_branch: None,
            ahead: 0,
            behind: 0,
            staged_files: Vec::new(),
            changed_files: Vec::new(),
            untracked_files: Vec::new(),
            current_panel: ScmPanel::Changes,
            cursor_index: 0,
            scroll: 0,
            mode: GitOperationMode::Browse,
            commit_message: String::new(),
            status_message: None,
            error_message: None,
            last_refresh: now,
        };
        state.refresh(data, now);
        state
    }

    /// Records the result of staging `count` files.
    pub fn finish_stage(&mut self, count: usize, outcome: &CommandOutcome)
        ensures
            !outcome.success ==> opt_str_view(final(self).error_message) == Some(
                "Failed to stage: "@ + outcome.stderr@,
            ) && final(self).status_message == old(self).status_message,
            outcome.success ==> opt_str_view(final(self).status_message) == Some(
                count_message("Staged "@, count as nat),
            ) && final(self).error_message == old(self).error_message,
            final(self).mode == old(self).mode,
            final(self).cursor_index == old(self).cursor_index,
            same_lists(*final(self), *old(self)),
    {
        let msg = make_count_message("Staged ", count);
        self.record(outcome, "Failed to stage: ", msg);
    }

    /// Records the result of unstaging `count` files.
    pub fn finish_unstage(&mut self, count: usize, outcome: &CommandOutcome)
        ensures
            !outcome.success ==> opt_str_view(final(self).error_message) == Some(
                "Failed to unstage: "@ + outcome.stderr@,
            ) && final(self).status_message == old(self).status_message,
            outcome.success ==> opt_str_view(final(self).status_message) == Some(
                count_message("Unstaged "@, count as nat),
            ) && final(self).error_message == old(self).error_message,
            final(self).mode == old(self).mode,
            final(self).cursor_index == old(self).cursor_index,
            same_lists(*final(self), *old(self)),
    {
        let msg = make_count_message("Unstaged ", count);
        self.record(outcome, "Failed to unstage: ", msg);
    }

    /// Records the result of discarding the changes to one file.
    pub fn finish_discard(&mut self, path: &str, outcome: &CommandOutcome)
        ensures
            !outcome.success ==> opt_str_view(final(self).error_message) == Some(
                "Failed to discard: "@ + outcome.stderr@,
            ) && final(self).status_message == old(self).status_message,
            outcome.success ==> opt_str_view(final(self).status_message) == Some(
                "Discarded changes to "@ + path@,
            ) && final(self).error_message == old(self).error_message,
            final(self).mode == old(self).mode,
            final(self).cursor_index == old(self).cursor_index,
            same_lists(*final(self), *old(self)),
    {
        let msg = concat_message("Discarded changes to ", path);
        self.record(outcome, "Failed to discard: ", msg);
    }

    /// Records the result of discarding the changes to `count` files.
    pub fn finish_discard_files(&mut self, count: usize, outcome: &CommandOutcome)
        ensures
            !outcome.success ==> opt_str_view(final(self).error_message) == Some(
                "Failed to discard: "@ + outcome.stderr@,
            ) && final(self).status_message == old(self).status_message,
            outcome.success ==> opt_str_view(final(self).status_message) == Some(
                count_message("Discarded "@, count as nat),
            ) && final(self).error_message == old(self).error_message,
            final(self).mode == old(self).mode,
            final(self).cursor_index == old(self).cursor_index,
            same_lists(*final(self), *old(self)),
    {
        let msg = make_count_message("Discarded ", count);
        self.record(outcome, "Failed to discard: ", msg);
    }

    /// Records the result of `git add -A`.
    pub fn finish_stage_all(&mut self, outcome: &CommandOutcome)
        ensures
            !outcome.success ==> opt_str_view(final(self).error_message) == Some(
                "Failed to stage all: "@ + outcome.stderr@,
            ) && final(self).status_message == old(self).status_message,
            outcome.success ==> opt_str_view(final(self).status_message) == Some(
                "Staged all changes"@,
            ) && final(self).error_message == old(self).error_message,
            final(self).mode == old(self).mode,
            final(self).cursor_index == old(self).cursor_index,
            same_lists(*final(self), *old(self)),
    {
        self.record(outcome, "Failed to stage all: ", "Staged all changes".to_string());
    }

    /// Records the result of `git reset HEAD`.
    pub fn finish_unstage_all(&mut self, outcome: &CommandOutcome)
        ensures
            !outcome.success ==> opt_str_view(final(self).error_message) == Some(
                "Failed to unstage all: "@ + outcome.stderr@,
            ) && final(self).status_message == old(self).status_message,
            outcome.success ==> opt_str_view(final(self).status_message) == Some(
                "Unstaged all changes"@,
            ) && final(self).error_message == old(self).error_message,
            final(self).mode == old(self).mode,
            final(self).cursor_index == old(self).cursor_index,
            same_lists(*final(self), *old(self)),
    {
        self.record(outcome, "Failed to unstage all: ", "Unstaged all changes".to_string());
    }

    /// Records the result of `git push`.
    pub fn finish_push(&mut self, outcome: &CommandOutcome)
        ensures
            !outcome.success ==> opt_str_view(final(self).error_message) == Some(
                "Push failed: "@ + outcome.stderr@,
            ) && final(self).status_message == old(self).status_message,
            outcome.success ==> opt_str_view(final(self).status_message) == Some(
                "Pushed successfully"@,
            ) && final(self).error_message == old(self).error_message,
            final(self).mode == old(self).mode,
            final(self).cursor_index == old(self).cursor_index,
            same_lists(*final(self), *old(self)),
    {
        self.record(outcome, "Push failed: ", "Pushed successfully".to_string());
    }

    /// Records the result of `git fetch`.
    pub fn finish_fetch(&mut self, outcome: &CommandOutcome)
        ensures
            !outcome.success ==> opt_str_view(final(self).error_message) == Some(
                "Fetch failed: "@ + outcome.stderr@,
            ) && final(self).status_message == old(self).status_message,
            outcome.success ==> opt_str_view(final(self).status_message) == Some(
                "Fetched successfully"@,
            ) && final(self).error_message == old(self).error_message,
            final(self).mode == old(self).mode,
            final(self).cursor_index == old(self).cursor_index,
            same_lists(*final(self), *old(self)),
    {
        self.record(outcome, "Fetch failed: ", "Fetched successfully".to_string());
    }

    /// Records the result of `git pull`; a pull that found nothing new says so.
    pub fn finish_pull(&mut self, outcome: &CommandOutcome)
        ensures
            !outcome.success ==> opt_str_view(final(self).error_message) == Some(
                "Pull failed: "@ + outcome.stderr@,
            ) && final(self).status_message == old(self).status_message,
            outcome.success ==> opt_str_view(final(self).status_message) == Some(
                if contains_seq(outcome.stdout@, "Already up to date"@) {
                    "Already up to date"@
                } else {
                    "Pulled successfully"@
                },
            ) && final(self).error_message == old(self).error_message,
            final(self).mode == old(self).mode,
            final(self).cursor_index == old(self).cursor_index,
            same_lists(*final(self), *old(self)),
    {
        let msg = if str_contains(outcome.stdout.as_str(), "Already up to date") {
            "Already up to date".to_string()
        } else {
            "Pulled successfully".to_string()
        };
        self.record(outcome, "Pull failed: ", msg);
    }

    /// Validates the commit message: a blank message is refused with an
    /// error, otherwise the `git commit -m <message>` arguments are returned.
    pub fn commit_command(&mut self) -> (r: Option<Vec<String>>)
        ensures
            trim(old(self).commit_message@).len() == 0 ==> r is None && opt_str_view(
                final(self).error_message,
            ) == Some("Commit message cannot be empty"@),
            trim(old(self).commit_message@).len() > 0 ==> r is Some && strings_view(r->0@) == seq![
                "commit"@,
                "-m"@,
                old(self).commit_message@,
            ] && final(self).error_message == old(self).error_message,
            final(self).mode == old(self).mode,
            final(self).commit_message == old(self).commit_message,
            final(self).status_message == old(self).status_message,
            final(self).cursor_index == old(self).cursor_index,
            same_lists(*final(self), *old(self)),
    {
        if is_blank(self.commit_message.as_str()) {
            self.error_message = Some("Commit message cannot be empty".to_string());
            return None;
        }
        let mut v: Vec<String> = Vec::new();
        v.push("commit".to_string());
        v.push("-m".to_string());
        v.push(self.commit_message.clone());
        assert(strings_view(v@) =~= seq!["commit"@, "-m"@, self.commit_message@]);
        Some(v)
    }

    /// Records the result of `git commit`: the message is cleared on
    /// success, and the view returns to browsing either way.
    pub fn finish_commit(&mut self, outcome: &CommandOutcome)
        ensures
            !outcome.success ==> opt_str_view(final(self).error_message) == Some(
                "Commit failed: "@ + outcome.stderr@,
            ) && final(self).status_message == old(self).status_message
                && final(self).commit_message == old(self).commit_message,
            outcome.success ==> opt_str_view(final(self).status_message) == Some(
                "Committed successfully"@,
            ) && final(self).error_message == old(self).error_message
                && final(self).commit_message@.len() == 0,
            final(self).mode == GitOperationMode::Browse,
            final(self).cursor_index == old(self).cursor_index,
            same_lists(*final(self), *old(self)),
    {
        self.record(outcome, "Commit failed: ", "Committed successfully".to_string());
        if outcome.success {
            self.commit_message = String::new();
        }
        self.mode = GitOperationMode::Browse;
    }

    /// Cancel current operation.
    pub fn cancel_operation(&mut self)
        ensures
            final(self).mode == GitOperationMode::Browse,
            final(self).commit_message@.len() == 0,
            final(self).error_message == old(self).error_message,
            final(self).status_message == old(self).status_message,
            final(self).cursor_index == old(self).cursor_index,
            same_lists(*final(self), *old(self)),
    {
        self.mode = GitOperationMode::Browse;
        self.commit_message = String::new();
    }

    /// An action that is refused for safety (hard reset, discard all).
    pub fn reject_unsupported_action(&mut self)
        ensures
            opt_str_view(final(self).error_message) == Some("Operation not implemented"@),
            final(self).mode == GitOperationMode::Browse,
            final(self).status_message == old(self).status_message,
            final(self).cursor_index == old(self).cursor_index,
            same_lists(*final(self), *old(self)),
    {
        self.error_message = Some("Operation not implemented".to_string());
        self.mode = GitOperationMode::Browse;
    }
}

} // verus!

verus! {

/// Where the diff of the file under the cursor comes from.
#[derive(Debug, Clone)]
pub enum DiffRequest {
    /// Nothing under the cursor: the diff is empty
    Empty,
    /// Run git with these arguments
    Git(Vec<String>),
    /// An untracked file: show the file at this path (relative to the
    /// repository root)
    ReadFile(String),
}

/// The abstract value of a [`DiffRequest`].
pub enum DiffRequestView {
    Empty,
    Git(Seq<Seq<char>>),
    ReadFile(Seq<char>),
}

impl View for DiffRequest {
    type V = DiffRequestView;

    open spec fn view(&self) -> DiffRequestView {
        match self {
            DiffRequest::Empty => DiffRequestView::Empty,
            DiffRequest::Git(v) => DiffRequestView::Git(strings_view(v@)),
            DiffRequest::ReadFile(p) => DiffRequestView::ReadFile(p@),
        }
    }
}

impl GitScmState {
    /// How to get the diff of the file under the cursor: `git diff
    /// --cached` for a staged file, `git diff` for a changed one, the
    /// file itself for an untracked one.
    pub open spec fn diff_request_spec(self) -> DiffRequestView {
        if self.cursor_index < self.current().len() {
            let p = self.current()[self.cursor_index as int].path@;
            match self.current_panel {
                ScmPanel::Staged => DiffRequestView::Git(seq!["diff"@, "--cached"@, "--"@, p]),
                ScmPanel::Changes => DiffRequestView::Git(seq!["diff"@, "--"@, p]),
                ScmPanel::Untracked => DiffRequestView::ReadFile(p),
            }
        } else {
            DiffRequestView::Empty
        }
    }

    /// How to get the diff of the file under the cursor.
    pub fn diff_request(&self) -> (r: DiffRequest)
        ensures
            r@ == self.diff_request_spec(),
    {
        match self.current_entry() {
            None => DiffRequest::Empty,
            Some(e) => {
                let p = e.path.clone();
                assert(p@ == self.current()[self.cursor_index as int].path@);
                match self.current_panel {
                    ScmPanel::Staged => {
                        let mut v = words_vec3("diff", "--cached", "--");
                        let ghost before = strings_view(v@);
                        let ghost pv = p@;
                        v.push(p);
                        assert(strings_view(v@) =~= before.push(pv));
                        assert(strings_view(v@) =~= seq!["diff"@, "--cached"@, "--"@, pv]);
                        DiffRequest::Git(v)
                    },
                    ScmPanel::Changes => {
                        let mut v = words_vec2("diff", "--");
                        let ghost before = strings_view(v@);
                        let ghost pv = p@;
                        v.push(p);
                        assert(strings_view(v@) =~= before.push(pv));
                        assert(strings_view(v@) =~= seq!["diff"@, "--"@, pv]);
                        DiffRequest::Git(v)
                    },
                    ScmPanel::Untracked => DiffRequest::ReadFile(p),
                }
            },
        }
    }
}

} // verus!
