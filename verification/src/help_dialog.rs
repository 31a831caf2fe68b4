//! The help dialog: which category is shown, the search field with its
//! cursor, scrolling, focus and mouse clicks on the category list.
use vstd::prelude::*;
use crate::help_content::{
    help_results_view, search_help, search_help_spec, HelpCategory, HelpEntry,
};
use crate::text::{from_char_range, push_str, string_push, to_chars};
use crate::widgets::Rect;

verus! {

/// Focus states within the help dialog.
#[derive(Debug, Clone, Copy, PartialEq, Eq, Structural)]
pub enum HelpFocus {
    /// Search input field
    SearchInput,
    /// Category list on the left
    CategoryList,
    /// Content area on the right
    ContentArea,
}

impl Default for HelpFocus {
    fn default() -> (r: HelpFocus)
        ensures
            r == HelpFocus::CategoryList,
    {
        HelpFocus::CategoryList
    }
}

impl HelpFocus {
    pub open spec fn next_spec(self) -> HelpFocus {
        match self {
            HelpFocus::SearchInput => HelpFocus::CategoryList,
            HelpFocus::CategoryList => HelpFocus::ContentArea,
            HelpFocus::ContentArea => HelpFocus::SearchInput,
        }
    }

    pub open spec fn prev_spec(self) -> HelpFocus {
        match self {
            HelpFocus::SearchInput => HelpFocus::ContentArea,
            HelpFocus::CategoryList => HelpFocus::SearchInput,
            HelpFocus::ContentArea => HelpFocus::CategoryList,
        }
    }

    /// Move to next focus area.
    pub fn next(&self) -> (r: HelpFocus)
        ensures
            r == self.next_spec(),
    {
        match self {
            HelpFocus::SearchInput => HelpFocus::CategoryList,
            HelpFocus::CategoryList => HelpFocus::ContentArea,
            HelpFocus::ContentArea => HelpFocus::SearchInput,
        }
    }

    /// Move to previous focus area.
    pub fn prev(&self) -> (r: HelpFocus)
        ensures
            r == self.prev_spec(),
    {
        match self {
            HelpFocus::SearchInput => HelpFocus::ContentArea,
            HelpFocus::CategoryList => HelpFocus::SearchInput,
            HelpFocus::ContentArea => HelpFocus::CategoryList,
        }
    }
}

/// `prev` undoes `next` and `next` undoes `prev`; three steps either way
/// come back to the start.
pub proof fn lemma_help_focus_cycle(f: HelpFocus)
    ensures
        f.next_spec().prev_spec() == f,
        f.prev_spec().next_spec() == f,
        f.next_spec().next_spec().next_spec() == f,
        f.prev_spec().prev_spec().prev_spec() == f,
{
}

/// Click region for category items.
#[derive(Debug, Clone, Copy, PartialEq, Eq, Structural)]
pub struct CategoryClickRegion {
    pub area: Rect,
    pub category: HelpCategory,
}

/// The category of the first region that holds the cell, if any does.
pub open spec fn category_at(regions: Seq<CategoryClickRegion>, col: int, row: int) -> Option<HelpCategory>
    decreases regions.len(),
{
    if regions.len() == 0 {
        None
    } else if regions[0].area.contains_spec(col, row) {
        Some(regions[0].category)
    } else {
        category_at(regions.drop_first(), col, row)
    }
}

/// Where the cursor stands in a query of `n` characters: at its position,
/// or at the end when it is past the end.
pub open spec fn cursor_index(pos: int, n: int) -> int {
    if pos < n {
        pos
    } else {
        n
    }
}

/// The query after typing `c` with the cursor at `pos`.
pub open spec fn typed(q: Seq<char>, pos: int, c: char) -> Seq<char> {
    q.take(cursor_index(pos, q.len() as int)) + seq![c] + q.skip(cursor_index(pos, q.len() as int))
}

/// The query after Backspace with the cursor at `pos`.
pub open spec fn backspaced(q: Seq<char>, pos: int) -> Seq<char> {
    if 0 < pos && pos - 1 < q.len() {
        q.take(pos - 1) + q.skip(pos)
    } else {
        q
    }
}

/// Backspace undoes typing a character: the query is as before, and the
/// cursor (one further after typing) is back where it was, as long as it
/// was within the query.
pub proof fn lemma_backspace_undoes_typing(q: Seq<char>, pos: int, c: char)
    requires
        0 <= pos <= q.len(),
    ensures
        backspaced(typed(q, pos, c), pos + 1) == q,
{
    let t = typed(q, pos, c);
    assert(t.take(pos) + t.skip(pos + 1) =~= q);
}

/// The query entries that are shown: the search results while there is a
/// query, else the entries of the selected category.
pub open spec fn shown_entries(query: Seq<char>, category: HelpCategory) -> Seq<(Seq<char>, Seq<char>)> {
    if query.len() > 0 {
        search_help_spec(query).map_values(|p: (HelpCategory, (Seq<char>, Seq<char>))| p.1)
    } else {
        category.entries_spec()
    }
}

/// The furthest the content can be scrolled: one less than the number of
/// entries shown, and 0 when there are none.
pub open spec fn max_content_scroll(query: Seq<char>, category: HelpCategory) -> int {
    let n = shown_entries(query, category).len();
    if n == 0 {
        0
    } else {
        n - 1
    }
}

/// State for the help dialog.
#[derive(Debug, Clone)]
pub struct HelpDialogState {
    /// Current search query
    pub search_query: String,
    /// Cursor position in search field, in characters
    pub search_cursor_pos: usize,
    /// Currently selected category
    pub selected_category: HelpCategory,
    /// Scroll offset for category list (if needed)
    pub category_scroll: usize,
    /// Scroll offset for content area
    pub content_scroll: usize,
    /// Currently focused area
    pub focus: HelpFocus,
    /// Click regions for categories (filled in while drawing)
    pub click_regions: Vec<CategoryClickRegion>,
}

impl Default for HelpDialogState {
    fn default() -> (r: HelpDialogState)
        ensures
            r.search_query@.len() == 0,
            r.search_cursor_pos == 0,
            r.selected_category == HelpCategory::Navigation,
            r.category_scroll == 0,
            r.content_scroll == 0,
            r.focus == HelpFocus::CategoryList,
            r.click_regions@.len() == 0,
    {
        HelpDialogState::new()
    }
}

/// `v` with `c` put in at position `p`.
fn insert_at(v: &[char], p: usize, c: char) -> (r: String)
    requires
        p <= v@.len(),
    ensures
        r@ == v@.take(p as int) + seq![c] + v@.skip(p as int),
{
    let mut s = from_char_range(v, 0, p);
    string_push(&mut s, c);
    let rest = from_char_range(v, p, v.len());
    push_str(&mut s, rest.as_str());
    assert(v@.subrange(0, p as int) =~= v@.take(p as int));
    assert(v@.subrange(p as int, v@.len() as int) =~= v@.skip(p as int));
    s
}

/// `v` without the character at position `p`.
fn remove_at(v: &[char], p: usize) -> (r: String)
    requires
        p < v@.len(),
    ensures
        r@ == v@.take(p as int) + v@.skip(p + 1),
{
    let n = v.len();
    let mut s = from_char_range(v, 0, p);
    let rest = from_char_range(v, p + 1, n);
    push_str(&mut s, rest.as_str());
    assert(v@.subrange(0, p as int) =~= v@.take(p as int));
    assert(v@.subrange(p + 1, v@.len() as int) =~= v@.skip(p + 1));
    s
}

impl HelpDialogState {
    /// A dialog on the first category, with an empty search field and the
    /// focus on the category list.
    pub fn new() -> (r: HelpDialogState)
        ensures
            r.search_query@.len() == 0,
            r.search_cursor_pos == 0,
            r.selected_category == HelpCategory::Navigation,
            r.category_scroll == 0,
            r.content_scroll == 0,
            r.focus == HelpFocus::CategoryList,
            r.click_regions@.len() == 0,
    {
        HelpDialogState {
            search_query: String::new(),
            search_cursor_pos: 0,
            selected_category: HelpCategory::Navigation,
            category_scroll: 0,
            content_scroll: 0,
            focus: HelpFocus::CategoryList,
            click_regions: Vec::new(),
        }
    }

    /// Move to next category.
    pub fn next_category(&mut self)
        ensures
            final(self).selected_category == old(self).selected_category.next_spec(),
            final(self).content_scroll == 0,
            final(self).search_query@ == old(self).search_query@,
            final(self).search_cursor_pos == old(self).search_cursor_pos,
            final(self).focus == old(self).focus,
    {
        self.selected_category = self.selected_category.next();
        self.content_scroll = 0;
    }

    /// Move to previous category.
    pub fn prev_category(&mut self)
        ensures
            final(self).selected_category == old(self).selected_category.prev_spec(),
            final(self).content_scroll == 0,
            final(self).search_query@ == old(self).search_query@,
            final(self).search_cursor_pos == old(self).search_cursor_pos,
            final(self).focus == old(self).focus,
    {
        self.selected_category = self.selected_category.prev();
        self.content_scroll = 0;
    }

    /// Scroll content down, no further than the last entry shown.
    pub fn scroll_content_down(&mut self, amount: usize)
        requires
            old(self).content_scroll + amount <= usize::MAX,
        ensures
            final(self).content_scroll == if old(self).content_scroll + amount <= max_content_scroll(
                old(self).search_query@,
                old(self).selected_category,
            ) {
                old(self).content_scroll + amount
            } else {
                max_content_scroll(old(self).search_query@, old(self).selected_category)
            },
            final(self).search_query@ == old(self).search_query@,
            final(self).selected_category == old(self).selected_category,
            final(self).focus == old(self).focus,
    {
        let max_scroll = self.get_max_content_scroll();
        let s = self.content_scroll + amount;
        self.content_scroll = if s <= max_scroll {
            s
        } else {
            max_scroll
        };
    }

    /// Scroll content up, stopping at the top.
    pub fn scroll_content_up(&mut self, amount: usize)
        ensures
            final(self).content_scroll == if old(self).content_scroll >= amount {
                old(self).content_scroll - amount
            } else {
                0
            },
            final(self).search_query@ == old(self).search_query@,
            final(self).selected_category == old(self).selected_category,
            final(self).focus == old(self).focus,
    {
        self.content_scroll = self.content_scroll.saturating_sub(amount);
    }

    /// Get maximum scroll value for content.
    fn get_max_content_scroll(&self) -> (r: usize)
        ensures
            r == max_content_scroll(self.search_query@, self.selected_category),
    {
        let n = if self.is_searching() {
            self.get_search_results().len()
        } else {
            self.selected_category.entries().len()
        };
        n.saturating_sub(1)
    }

    /// Move to next focus area.
    pub fn focus_next(&mut self)
        ensures
            final(self).focus == old(self).focus.next_spec(),
            final(self).search_query@ == old(self).search_query@,
            final(self).search_cursor_pos == old(self).search_cursor_pos,
            final(self).selected_category == old(self).selected_category,
            final(self).content_scroll == old(self).content_scroll,
    {
        self.focus = self.focus.next();
    }

    /// Move to previous focus area.
    pub fn focus_prev(&mut self)
        ensures
            final(self).focus == old(self).focus.prev_spec(),
            final(self).search_query@ == old(self).search_query@,
            final(self).search_cursor_pos == old(self).search_cursor_pos,
            final(self).selected_category == old(self).selected_category,
            final(self).content_scroll == old(self).content_scroll,
    {
        self.focus = self.focus.prev();
    }

    /// Check if we're in search mode.
    pub fn is_searching(&self) -> (r: bool)
        ensures
            r == (self.search_query@.len() > 0),
    {
        !self.search_query.as_str().is_empty()
    }

    /// Get filtered entries based on search query.
    pub fn get_search_results(&self) -> (r: Vec<(HelpCategory, HelpEntry)>)
        ensures
            help_results_view(r@) == search_help_spec(self.search_query@),
    {
        if self.search_query.as_str().is_empty() {
            let v: Vec<(HelpCategory, HelpEntry)> = Vec::new();
            assert(help_results_view(v@) =~= search_help_spec(self.search_query@));
            return v;
        }
        search_help(self.search_query.as_str())
    }

    /// Get current content entries to display.
    pub fn get_current_entries(&self) -> (r: Vec<HelpEntry>)
        ensures
            r@.map_values(|e: HelpEntry| e@) == shown_entries(self.search_query@, self.selected_category),
    {
        if self.is_searching() {
            let found = self.get_search_results();
            let ghost fv = help_results_view(found@);
            let mut out: Vec<HelpEntry> = Vec::new();
            let mut i: usize = 0;
            while i < found.len()
                invariant
                    i <= found@.len(),
                    fv == help_results_view(found@),
                    out@.len() == i,
                    forall|j: int| 0 <= j < i ==> (#[trigger] out@[j])@ == fv[j].1,
                decreases found@.len() - i,
            {
                out.push(found[i].1.clone_entry());
                i = i + 1;
            }
            assert(out@.map_values(|e: HelpEntry| e@) =~= shown_entries(self.search_query@, self.selected_category));
            out
        } else {
            self.selected_category.entries()
        }
    }

    /// Insert a character into the search query at the cursor.
    pub fn insert_char(&mut self, c: char)
        requires
            old(self).search_cursor_pos < usize::MAX,
        ensures
            final(self).search_query@ == typed(old(self).search_query@, old(self).search_cursor_pos as int, c),
            final(self).search_cursor_pos == old(self).search_cursor_pos + 1,
            final(self).content_scroll == 0,
            final(self).selected_category == old(self).selected_category,
            final(self).focus == old(self).focus,
    {
        let v = to_chars(self.search_query.as_str());
        let p = if self.search_cursor_pos < v.len() {
            self.search_cursor_pos
        } else {
            v.len()
        };
        self.search_query = insert_at(v.as_slice(), p, c);
        self.search_cursor_pos = self.search_cursor_pos + 1;
        self.content_scroll = 0;
    }

    /// Delete the character before the cursor; false when the cursor is at
    /// the start, or stands past the end (it still moves back one).
    pub fn delete_char_backward(&mut self) -> (r: bool)
        ensures
            old(self).search_cursor_pos == 0 ==> !r && final(self).search_cursor_pos == 0
                && final(self).search_query@ == old(self).search_query@,
            old(self).search_cursor_pos > 0 ==> {
                let p = old(self).search_cursor_pos - 1;
                let q = old(self).search_query@;
                &&& final(self).search_cursor_pos == p
                &&& r == (p < q.len())
                &&& r ==> final(self).search_query@ == q.take(p) + q.skip(p + 1)
                &&& !r ==> final(self).search_query@ == q
            },
            final(self).search_query@ == backspaced(old(self).search_query@, old(self).search_cursor_pos as int),
            final(self).selected_category == old(self).selected_category,
            final(self).focus == old(self).focus,
            final(self).content_scroll == old(self).content_scroll,
    {
        if self.search_cursor_pos == 0 {
            return false;
        }
        self.search_cursor_pos = self.search_cursor_pos - 1;
        let v = to_chars(self.search_query.as_str());
        if self.search_cursor_pos < v.len() {
            self.search_query = remove_at(v.as_slice(), self.search_cursor_pos);
                return true;
        }
        false
    }

    /// Delete the character at the cursor; false when there is none.
    pub fn delete_char_forward(&mut self) -> (r: bool)
        ensures
            r == (old(self).search_cursor_pos < old(self).search_query@.len()),
            r ==> final(self).search_query@ == old(self).search_query@.take(
                old(self).search_cursor_pos as int,
            ) + old(self).search_query@.skip(old(self).search_cursor_pos + 1),
            !r ==> final(self).search_query@ == old(self).search_query@,
            final(self).search_cursor_pos == old(self).search_cursor_pos,
            final(self).selected_category == old(self).selected_category,
            final(self).focus == old(self).focus,
            final(self).content_scroll == old(self).content_scroll,
    {
        let v = to_chars(self.search_query.as_str());
        if self.search_cursor_pos < v.len() {
            self.search_query = remove_at(v.as_slice(), self.search_cursor_pos);
                return true;
        }
        false
    }

    /// Move cursor left.
    pub fn move_cursor_left(&mut self)
        ensures
            final(self).search_cursor_pos == if old(self).search_cursor_pos > 0 {
                old(self).search_cursor_pos - 1
            } else {
                0
            },
            final(self).search_query@ == old(self).search_query@,
    {
        if self.search_cursor_pos > 0 {
            self.search_cursor_pos = self.search_cursor_pos - 1;
        }
    }

    /// Move cursor right, no further than the end of the query.
    pub fn move_cursor_right(&mut self)
        ensures
            final(self).search_cursor_pos == if old(self).search_cursor_pos < old(
                self,
            ).search_query@.len() {
                old(self).search_cursor_pos + 1
            } else {
                old(self).search_cursor_pos as int
            },
            final(self).search_query@ == old(self).search_query@,
    {
        let max = to_chars(self.search_query.as_str()).len();
        if self.search_cursor_pos < max {
            self.search_cursor_pos = self.search_cursor_pos + 1;
        }
    }

    /// Move cursor to start.
    pub fn move_cursor_home(&mut self)
        ensures
            final(self).search_cursor_pos == 0,
            final(self).search_query@ == old(self).search_query@,
    {
        self.search_cursor_pos = 0;
    }

    /// Move cursor to end.
    pub fn move_cursor_end(&mut self)
        ensures
            final(self).search_cursor_pos == old(self).search_query@.len(),
            final(self).search_query@ == old(self).search_query@,
    {
        self.search_cursor_pos = to_chars(self.search_query.as_str()).len();
    }

    /// Clear search query.
    pub fn clear_search(&mut self)
        ensures
            final(self).search_query@.len() == 0,
            final(self).search_cursor_pos == 0,
            final(self).content_scroll == 0,
            final(self).selected_category == old(self).selected_category,
            final(self).focus == old(self).focus,
    {
        self.search_query = String::new();
        self.search_cursor_pos = 0;
        self.content_scroll = 0;
    }

    /// Get text before cursor for drawing.
    pub fn text_before_cursor(&self) -> (r: String)
        ensures
            r@ == self.search_query@.take(
                cursor_index(self.search_cursor_pos as int, self.search_query@.len() as int),
            ),
    {
        let v = to_chars(self.search_query.as_str());
        let p = if self.search_cursor_pos < v.len() {
            self.search_cursor_pos
        } else {
            v.len()
        };
        assert(v@.subrange(0, p as int) =~= v@.take(p as int));
        from_char_range(v.as_slice(), 0, p)
    }

    /// Get text after cursor for drawing.
    pub fn text_after_cursor(&self) -> (r: String)
        ensures
            r@ == self.search_query@.skip(
                cursor_index(self.search_cursor_pos as int, self.search_query@.len() as int),
            ),
    {
        let v = to_chars(self.search_query.as_str());
        let p = if self.search_cursor_pos < v.len() {
            self.search_cursor_pos
        } else {
            v.len()
        };
        assert(v@.subrange(p as int, v@.len() as int) =~= v@.skip(p as int));
        from_char_range(v.as_slice(), p, v.len())
    }

    /// Clear click regions (call before drawing).
    pub fn clear_click_regions(&mut self)
        ensures
            final(self).click_regions@.len() == 0,
            final(self).selected_category == old(self).selected_category,
            final(self).focus == old(self).focus,
    {
        self.click_regions.clear();
    }

    /// Add a click region for a category.
    pub fn add_click_region(&mut self, area: Rect, category: HelpCategory)
        ensures
            final(self).click_regions@ == old(self).click_regions@.push(CategoryClickRegion { area, category }),
            final(self).selected_category == old(self).selected_category,
            final(self).focus == old(self).focus,
    {
        self.click_regions.push(CategoryClickRegion { area, category });
    }

    /// Handle a click at the given position: a click on a category selects
    /// it, scrolls its content to the top and focuses the category list.
    /// Returns true if a category was clicked.
    pub fn handle_click(&mut self, col: u16, row: u16) -> (r: bool)
        ensures
            r == category_at(old(self).click_regions@, col as int, row as int) is Some,
            r ==> final(self).selected_category == category_at(
                old(self).click_regions@,
                col as int,
                row as int,
            )->0 && final(self).content_scroll == 0 && final(self).focus == HelpFocus::CategoryList,
            !r ==> final(self).selected_category == old(self).selected_category && final(self).content_scroll
                == old(self).content_scroll && final(self).focus == old(self).focus,
            final(self).click_regions@ == old(self).click_regions@,
            final(self).search_query@ == old(self).search_query@,
    {
        let mut i: usize = 0;
        let n = self.click_regions.len();
        assert(self.click_regions@.skip(0) =~= self.click_regions@);
        while i < n
            invariant
                n == self.click_regions@.len(),
                i <= n,
                self.click_regions@ == old(self).click_regions@,
                self.selected_category == old(self).selected_category,
                self.content_scroll == old(self).content_scroll,
                self.focus == old(self).focus,
                self.search_query@ == old(self).search_query@,
                category_at(self.click_regions@, col as int, row as int) == category_at(
                    self.click_regions@.skip(i as int),
                    col as int,
                    row as int,
                ),
            decreases n - i,
        {
            let region = self.click_regions[i];
            assert(self.click_regions@.skip(i as int)[0] == region);
            if region.area.contains(col, row) {
                self.selected_category = region.category;
                self.content_scroll = 0;
                self.focus = HelpFocus::CategoryList;
                return true;
            }
            assert(self.click_regions@.skip(i as int).drop_first() =~= self.click_regions@.skip(i + 1));
            i = i + 1;
        }
        false
    }
}

} // verus!
