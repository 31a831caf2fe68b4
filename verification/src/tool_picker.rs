//! The tool picker: tools grouped in categories, each tool selected or
//! not, with a cursor on a category header or on a tool, and categories
//! that can be collapsed.
use vstd::prelude::*;
use crate::text::strs_view;

verus! {

/// A tool in the picker: name, description, selected.
pub type PickerTool = (String, String, bool);

/// A category in the picker: its name and its tools.
pub type PickerCategory = (String, Vec<PickerTool>);

pub open spec fn tool_view(t: PickerTool) -> (Seq<char>, Seq<char>, bool) {
    (t.0@, t.1@, t.2)
}

pub open spec fn tools_view(ts: Seq<PickerTool>) -> Seq<(Seq<char>, Seq<char>, bool)> {
    ts.map_values(|t: PickerTool| tool_view(t))
}

pub open spec fn category_view(c: PickerCategory) -> (Seq<char>, Seq<(Seq<char>, Seq<char>, bool)>) {
    (c.0@, tools_view(c.1@))
}

pub open spec fn categories_view(cs: Seq<PickerCategory>) -> Seq<(Seq<char>, Seq<(Seq<char>, Seq<char>, bool)>)> {
    cs.map_values(|c: PickerCategory| category_view(c))
}

/// The tools with every selection set to `b`.
pub open spec fn with_flags(ts: Seq<(Seq<char>, Seq<char>, bool)>, b: bool) -> Seq<(Seq<char>, Seq<char>, bool)> {
    ts.map_values(|t: (Seq<char>, Seq<char>, bool)| (t.0, t.1, b))
}

/// Every tool of every category with its selection set to `b`.
pub open spec fn all_with_flags(
    cs: Seq<(Seq<char>, Seq<(Seq<char>, Seq<char>, bool)>)>,
    b: bool,
) -> Seq<(Seq<char>, Seq<(Seq<char>, Seq<char>, bool)>)> {
    cs.map_values(|c: (Seq<char>, Seq<(Seq<char>, Seq<char>, bool)>)| (c.0, with_flags(c.1, b)))
}

/// Every tool is selected.
pub open spec fn all_selected(ts: Seq<(Seq<char>, Seq<char>, bool)>) -> bool {
    forall|i: int| 0 <= i < ts.len() ==> (#[trigger] ts[i]).2
}

/// The names of the selected tools, in order.
pub open spec fn selected_in(ts: Seq<(Seq<char>, Seq<char>, bool)>) -> Seq<Seq<char>>
    decreases ts.len(),
{
    if ts.len() == 0 {
        seq![]
    } else {
        selected_in(ts.drop_last()) + if ts.last().2 {
            seq![ts.last().0]
        } else {
            seq![]
        }
    }
}

/// The names of the selected tools of all categories, category by
/// category.
pub open spec fn selected_names(cs: Seq<(Seq<char>, Seq<(Seq<char>, Seq<char>, bool)>)>) -> Seq<Seq<char>>
    decreases cs.len(),
{
    if cs.len() == 0 {
        seq![]
    } else {
        selected_names(cs.drop_last()) + selected_in(cs.last().1)
    }
}

/// The state of the tool picker.
#[derive(Debug, Clone)]
pub struct ToolPickerState {
    /// Categories with their tools
    pub categories: Vec<PickerCategory>,
    /// The category the cursor is in
    pub selected_category: usize,
    /// The tool the cursor is on; none when it is on the category header
    pub selected_tool: Option<usize>,
    pub scroll: usize,
    pub filter_query: String,
    /// Indices of the collapsed categories
    pub collapsed: Vec<usize>,
}

impl ToolPickerState {
    /// The number of tools in category `c`, 0 when there is no such category.
    pub open spec fn tool_count(self, c: int) -> int {
        if 0 <= c < self.categories@.len() {
            self.categories@[c].1@.len() as int
        } else {
            0
        }
    }

    pub open spec fn is_collapsed(self, c: int) -> bool {
        self.collapsed@.contains(c as usize)
    }

    /// A picker with these categories, the cursor on the first header,
    /// nothing collapsed.
    pub fn new(categories: Vec<PickerCategory>) -> (r: ToolPickerState)
        ensures
            r.categories@ == categories@,
            r.selected_category == 0,
            r.selected_tool is None,
            r.scroll == 0,
            r.filter_query@.len() == 0,
            r.collapsed@.len() == 0,
    {
        ToolPickerState {
            categories,
            selected_category: 0,
            selected_tool: None,
            scroll: 0,
            filter_query: String::new(),
            collapsed: Vec::new(),
        }
    }

    fn count_tools(&self, c: usize) -> (r: usize)
        ensures
            r == self.tool_count(c as int),
    {
        if c < self.categories.len() {
            self.categories[c].1.len()
        } else {
            0
        }
    }

    fn collapsed_contains(&self, c: usize) -> (r: bool)
        ensures
            r == self.collapsed@.contains(c),
    {
        let mut i: usize = 0;
        while i < self.collapsed.len()
            invariant
                i <= self.collapsed@.len(),
                forall|j: int| 0 <= j < i ==> self.collapsed@[j] != c,
            decreases self.collapsed@.len() - i,
        {
            if self.collapsed[i] == c {
                assert(self.collapsed@[i as int] == c);
                return true;
            }
            i = i + 1;
        }
        false
    }

    /// Move the cursor up: to the tool above, from the first tool to the
    /// header, from a header to the last tool of the category above (or its
    /// header when that is collapsed or has no tools).
    pub fn move_up(&mut self)
        ensures
            final(self).categories@ == old(self).categories@,
            final(self).collapsed@ == old(self).collapsed@,
            final(self).scroll == old(self).scroll,
            match old(self).selected_tool {
                Some(t) => final(self).selected_category == old(self).selected_category
                    && final(self).selected_tool == (if t > 0 {
                    Some((t - 1) as usize)
                } else {
                    None::<usize>
                }),
                None => if old(self).selected_category > 0 {
                    let c = old(self).selected_category - 1;
                    &&& final(self).selected_category == c
                    &&& final(self).selected_tool == (if old(self).is_collapsed(c) {
                        None::<usize>
                    } else if old(self).tool_count(c) > 0 {
                        Some((old(self).tool_count(c) - 1) as usize)
                    } else {
                        None::<usize>
                    })
                } else {
                    final(self).selected_category == old(self).selected_category
                        && final(self).selected_tool is None
                },
            },
    {
        match self.selected_tool {
            Some(t) => {
                if t > 0 {
                    self.selected_tool = Some(t - 1);
                } else {
                    self.selected_tool = None;
                }
            },
            None => {
                if self.selected_category > 0 {
                    self.selected_category = self.selected_category - 1;
                    if self.collapsed_contains(self.selected_category) {
                        self.selected_tool = None;
                    } else {
                        let n = self.count_tools(self.selected_category);
                        if n > 0 {
                            self.selected_tool = Some(n - 1);
                        }
                    }
                }
            },
        }
    }

    /// Move the cursor down: to the next tool, from a header into its
    /// first tool unless collapsed or empty, and past the last tool (or a
    /// collapsed or empty header) to the next category's header.
    pub fn move_down(&mut self)
        ensures
            final(self).categories@ == old(self).categories@,
            final(self).collapsed@ == old(self).collapsed@,
            final(self).scroll == old(self).scroll,
            ({
                let c = old(self).selected_category;
                let n = old(self).tool_count(c as int);
                let next_cat = c + 1 < old(self).categories@.len();
                let to_next = final(self).selected_category == c + 1 && final(self).selected_tool is None;
                let stay = final(self).selected_category == c && final(self).selected_tool
                    == old(self).selected_tool;
                match old(self).selected_tool {
                    Some(t) => if t + 1 < n {
                        final(self).selected_category == c && final(self).selected_tool == Some((t + 1) as usize)
                    } else if next_cat {
                        to_next
                    } else {
                        stay
                    },
                    None => if !old(self).is_collapsed(c as int) && n > 0 {
                        final(self).selected_category == c && final(self).selected_tool == Some(0usize)
                    } else if next_cat {
                        to_next
                    } else {
                        stay
                    },
                }
            }),
    {
        let n = self.count_tools(self.selected_category);
        let collapsed = self.collapsed_contains(self.selected_category);
        let next_cat = self.selected_category < self.categories.len()
            && self.selected_category + 1 < self.categories.len();
        match self.selected_tool {
            Some(t) => {
                if t < n && t + 1 < n {
                    self.selected_tool = Some(t + 1);
                } else if next_cat {
                    self.selected_category = self.selected_category + 1;
                    self.selected_tool = None;
                }
            },
            None => {
                if !collapsed && n > 0 {
                    self.selected_tool = Some(0);
                } else if next_cat {
                    self.selected_category = self.selected_category + 1;
                    self.selected_tool = None;
                }
            },
        }
    }
}

/// The tools with the selection of tool `t` flipped.
fn flip_tool(tools: &mut Vec<PickerTool>, t: usize)
    requires
        t < old(tools)@.len(),
    ensures
        tools_view(final(tools)@) == tools_view(old(tools)@).update(
            t as int,
            (tools_view(old(tools)@)[t as int].0, tools_view(old(tools)@)[t as int].1, !tools_view(old(tools)@)[t as int].2),
        ),
{
    let ghost tv = tools_view(tools@);
    let item = tools.remove(t);
    let flipped = (item.0, item.1, !item.2);
    assert(tool_view(flipped) == (tv[t as int].0, tv[t as int].1, !tv[t as int].2));
    tools.insert(t, flipped);
    assert(tools_view(tools@) =~= tv.update(t as int, (tv[t as int].0, tv[t as int].1, !tv[t as int].2)));
}

/// The tools with every selection set to `b`.
fn with_all(tools: Vec<PickerTool>, b: bool) -> (r: Vec<PickerTool>)
    ensures
        tools_view(r@) == with_flags(tools_view(tools@), b),
{
    let ghost tv = tools_view(tools@);
    let mut rest = tools;
    let n = rest.len();
    let mut out: Vec<PickerTool> = Vec::new();
    let mut i: usize = 0;
    assert(tools_view(out@) =~= with_flags(tv.take(0), b));
    while i < n
        invariant
            i <= n == tv.len(),
            rest@.len() == n - i,
            forall|j: int| 0 <= j < rest@.len() ==> tool_view(#[trigger] rest@[j]) == tv[j + i],
            tools_view(out@) == with_flags(tv.take(i as int), b),
        decreases n - i,
    {
        let ghost before = rest@;
        let item = rest.remove(0);
        assert(tool_view(before[0]) == tv[i as int]);
        let t = (item.0, item.1, b);
        assert(tool_view(t) == (tv[i as int].0, tv[i as int].1, b));
        let ghost old_out = tools_view(out@);
        out.push(t);
        assert(tools_view(out@) =~= old_out.push((tv[i as int].0, tv[i as int].1, b)));
        assert(with_flags(tv.take(i + 1), b) =~= with_flags(tv.take(i as int), b).push(
            (tv[i as int].0, tv[i as int].1, b),
        ));
        assert forall|j: int| 0 <= j < rest@.len() implies tool_view(#[trigger] rest@[j]) == tv[j + i + 1] by {
            assert(rest@[j] == before[j + 1]);
        }
        i = i + 1;
    }
    assert(tv.take(n as int) =~= tv);
    out
}

impl ToolPickerState {
    /// Toggle the tool under the cursor; on a header, select every tool of
    /// the category unless all are selected, in which case deselect them.
    pub fn toggle(&mut self)
        ensures
            final(self).selected_category == old(self).selected_category,
            final(self).selected_tool == old(self).selected_tool,
            final(self).collapsed@ == old(self).collapsed@,
            final(self).scroll == old(self).scroll,
            ({
                let cs = categories_view(old(self).categories@);
                let c = old(self).selected_category as int;
                if 0 <= c < cs.len() {
                    match old(self).selected_tool {
                        Some(t) => if t < cs[c].1.len() {
                            let tool = cs[c].1[t as int];
                            categories_view(final(self).categories@) == cs.update(
                                c,
                                (cs[c].0, cs[c].1.update(t as int, (tool.0, tool.1, !tool.2))),
                            )
                        } else {
                            categories_view(final(self).categories@) == cs
                        },
                        None => categories_view(final(self).categories@) == cs.update(
                            c,
                            (cs[c].0, with_flags(cs[c].1, !all_selected(cs[c].1))),
                        ),
                    }
                } else {
                    categories_view(final(self).categories@) == cs
                }
            }),
    {
        let c = self.selected_category;
        if c >= self.categories.len() {
            return;
        }
        let ghost cs = categories_view(self.categories@);
        let ghost old_cats = self.categories@;
        match self.selected_tool {
            Some(t) => {
                if t < self.categories[c].1.len() {
                    let (name, mut tools) = self.categories.remove(c);
                    assert(category_view(old_cats[c as int]) == cs[c as int]);
                    assert(name@ == cs[c as int].0 && tools_view(tools@) == cs[c as int].1);
                    flip_tool(&mut tools, t);
                    let ghost nc = category_view((name, tools));
                    self.categories.insert(c, (name, tools));
                    assert(categories_view(self.categories@) =~= cs.update(c as int, nc));
                }
            },
            None => {
                let (name, tools) = self.categories.remove(c);
                assert(category_view(old_cats[c as int]) == cs[c as int]);
                let ghost tv = tools_view(tools@);
                assert(tv == cs[c as int].1);
                let mut all = true;
                let mut i: usize = 0;
                while i < tools.len()
                    invariant
                        i <= tools@.len(),
                        tv == tools_view(tools@),
                        all == (forall|j: int| 0 <= j < i ==> (#[trigger] tv[j]).2),
                    decreases tools@.len() - i,
                {
                    assert(tv[i as int] == tool_view(tools@[i as int]));
                    if !tools[i].2 {
                        all = false;
                    }
                    i = i + 1;
                }
                let out = with_all(tools, !all);
                let ghost nc = category_view((name, out));
                self.categories.insert(c, (name, out));
                assert(categories_view(self.categories@) =~= cs.update(c as int, nc));
            },
        }
    }

    fn set_all_flags(&mut self, b: bool)
        ensures
            categories_view(final(self).categories@) == all_with_flags(categories_view(old(self).categories@), b),
            final(self).selected_category == old(self).selected_category,
            final(self).selected_tool == old(self).selected_tool,
            final(self).collapsed@ == old(self).collapsed@,
            final(self).scroll == old(self).scroll,
    {
        let ghost cs = categories_view(self.categories@);
        let mut rest: Vec<PickerCategory> = Vec::new();
        std::mem::swap(&mut rest, &mut self.categories);
        let n = rest.len();
        let mut out: Vec<PickerCategory> = Vec::new();
        let mut k: usize = 0;
        assert(categories_view(out@) =~= all_with_flags(cs.take(0), b));
        while k < n
            invariant
                k <= n == cs.len(),
                rest@.len() == n - k,
                forall|j: int| 0 <= j < rest@.len() ==> category_view(#[trigger] rest@[j]) == cs[j + k],
                categories_view(out@) == all_with_flags(cs.take(k as int), b),
            decreases n - k,
        {
            let ghost before = rest@;
            let item = rest.remove(0);
            assert(category_view(before[0]) == cs[k as int]);
            let tools = with_all(item.1, b);
            let cat = (item.0, tools);
            assert(category_view(cat) == (cs[k as int].0, with_flags(cs[k as int].1, b)));
            let ghost old_out = categories_view(out@);
            out.push(cat);
            assert(categories_view(out@) =~= old_out.push((cs[k as int].0, with_flags(cs[k as int].1, b))));
            assert(all_with_flags(cs.take(k + 1), b) =~= all_with_flags(cs.take(k as int), b).push(
                (cs[k as int].0, with_flags(cs[k as int].1, b)),
            ));
            assert forall|j: int| 0 <= j < rest@.len() implies category_view(#[trigger] rest@[j]) == cs[j + k + 1] by {
                assert(rest@[j] == before[j + 1]);
            }
            k = k + 1;
        }
        assert(cs.take(n as int) =~= cs);
        self.categories = out;
    }

    /// Select every tool.
    pub fn select_all(&mut self)
        ensures
            categories_view(final(self).categories@) == all_with_flags(categories_view(old(self).categories@), true),
            final(self).selected_category == old(self).selected_category,
            final(self).selected_tool == old(self).selected_tool,
            final(self).collapsed@ == old(self).collapsed@,
    {
        self.set_all_flags(true);
    }

    /// Deselect every tool.
    pub fn select_none(&mut self)
        ensures
            categories_view(final(self).categories@) == all_with_flags(categories_view(old(self).categories@), false),
            final(self).selected_category == old(self).selected_category,
            final(self).selected_tool == old(self).selected_tool,
            final(self).collapsed@ == old(self).collapsed@,
    {
        self.set_all_flags(false);
    }

    /// Collapse the current category; the cursor goes to its header.
    pub fn collapse_current(&mut self)
        ensures
            final(self).collapsed@.to_set() == old(self).collapsed@.to_set().insert(old(self).selected_category),
            final(self).selected_tool is None,
            final(self).selected_category == old(self).selected_category,
            final(self).categories@ == old(self).categories@,
    {
        let c = self.selected_category;
        if !self.collapsed_contains(c) {
            self.collapsed.push(c);
        }
        self.selected_tool = None;
        assert(self.collapsed@.to_set() =~= old(self).collapsed@.to_set().insert(c)) by {
            assert forall|x: usize| self.collapsed@.contains(x) <==> old(self).collapsed@.contains(x) || x == c by {
                if old(self).collapsed@.contains(x) {
                    let j = choose|j: int| 0 <= j < old(self).collapsed@.len() && old(self).collapsed@[j] == x;
                    assert(self.collapsed@[j] == x);
                }
                if x == c && !old(self).collapsed@.contains(c) {
                    assert(self.collapsed@[old(self).collapsed@.len() as int] == c);
                }
                if self.collapsed@.contains(x) {
                    let j = choose|j: int| 0 <= j < self.collapsed@.len() && self.collapsed@[j] == x;
                    if j < old(self).collapsed@.len() {
                        assert(old(self).collapsed@[j] == x);
                    }
                }
            }
        }
    }

    /// Expand the current category.
    pub fn expand_current(&mut self)
        ensures
            final(self).collapsed@.to_set() == old(self).collapsed@.to_set().remove(old(self).selected_category),
            final(self).selected_tool == old(self).selected_tool,
            final(self).selected_category == old(self).selected_category,
            final(self).categories@ == old(self).categories@,
    {
        let c = self.selected_category;
        let mut kept: Vec<usize> = Vec::new();
        let mut i: usize = 0;
        while i < self.collapsed.len()
            invariant
                i <= self.collapsed@.len(),
                self.collapsed@ == old(self).collapsed@,
                c == old(self).selected_category,
                forall|x: usize| #[trigger] kept@.contains(x) <==> (x != c && self.collapsed@.take(i as int).contains(x)),
            decreases self.collapsed@.len() - i,
        {
            let v = self.collapsed[i];
            let ghost cur = self.collapsed@.take(i as int);
            let ghost nxt = self.collapsed@.take(i + 1);
            assert forall|x: usize| nxt.contains(x) <==> cur.contains(x) || x == v by {
                if nxt.contains(x) {
                    let j = choose|j: int| 0 <= j < nxt.len() && #[trigger] nxt[j] == x;
                    if j < i {
                        assert(cur[j] == x);
                    }
                }
                if cur.contains(x) {
                    let j = choose|j: int| 0 <= j < cur.len() && #[trigger] cur[j] == x;
                    assert(nxt[j] == x);
                }
                if x == v {
                    assert(nxt[i as int] == x);
                }
            }
            let ghost before = kept@;
            if v != c {
                kept.push(v);
                assert forall|x: usize| kept@.contains(x) <==> before.contains(x) || x == v by {
                    if kept@.contains(x) {
                        let j = choose|j: int| 0 <= j < kept@.len() && kept@[j] == x;
                        if j < before.len() {
                            assert(before[j] == x);
                        }
                    }
                    if before.contains(x) {
                        let j = choose|j: int| 0 <= j < before.len() && before[j] == x;
                        assert(kept@[j] == x);
                    }
                    if x == v {
                        assert(kept@[before.len() as int] == x);
                    }
                }
            }
            assert forall|x: usize| #[trigger] kept@.contains(x) <==> (x != c && nxt.contains(x)) by {
                assert(before.contains(x) <==> (x != c && cur.contains(x)));
                assert(nxt.contains(x) <==> cur.contains(x) || x == v);
                if v != c {
                    assert(kept@.contains(x) <==> before.contains(x) || x == v);
                } else {
                    assert(kept@ == before);
                }
            }
            i = i + 1;
            assert(nxt == self.collapsed@.take(i as int));
        }
        assert(self.collapsed@.take(self.collapsed@.len() as int) =~= self.collapsed@);
        self.collapsed = kept;
        assert(self.collapsed@.to_set() =~= old(self).collapsed@.to_set().remove(c));
    }
}

/// The names of the selected tools of all categories, in order.
pub fn selected_tool_names(categories: &Vec<PickerCategory>) -> (r: Vec<String>)
    ensures
        strs_view(r@) == selected_names(categories_view(categories@)),
{
    let ghost cs = categories_view(categories@);
    let mut out: Vec<String> = Vec::new();
    let mut k: usize = 0;
    assert(cs.take(0) =~= seq![]);
    while k < categories.len()
        invariant
            k <= categories@.len(),
            cs == categories_view(categories@),
            strs_view(out@) == selected_names(cs.take(k as int)),
        decreases categories@.len() - k,
    {
        let tools = &categories[k].1;
        let ghost tv = tools_view(tools@);
        let ghost base = strs_view(out@);
        let mut i: usize = 0;
        assert(tv.take(0) =~= seq![]);
        assert(base + selected_in(tv.take(0)) =~= base);
        while i < tools.len()
            invariant
                i <= tools@.len(),
                tv == tools_view(tools@),
                strs_view(out@) == base + selected_in(tv.take(i as int)),
            decreases tools@.len() - i,
        {
            assert(tv.take(i + 1).drop_last() =~= tv.take(i as int));
            assert(tv.take(i + 1).last() == tool_view(tools@[i as int]));
            if tools[i].2 {
                let ghost old_out = strs_view(out@);
                let name = tools[i].0.clone();
                assert(name@ == tools@[i as int].0@);
                out.push(name);
                assert(strs_view(out@) =~= old_out.push(tools@[i as int].0@));
                assert(selected_in(tv.take(i + 1)) =~= selected_in(tv.take(i as int)) + seq![tv[i as int].0]);
                assert(strs_view(out@) =~= base + selected_in(tv.take(i + 1)));
            } else {
                assert(selected_in(tv.take(i + 1)) =~= selected_in(tv.take(i as int)));
            }
            i = i + 1;
        }
        assert(tv.take(tools@.len() as int) =~= tv);
        assert(cs.take(k + 1).drop_last() =~= cs.take(k as int));
        assert(cs.take(k + 1).last() == category_view(categories@[k as int]));
        k = k + 1;
    }
    assert(cs.take(categories@.len() as int) =~= cs);
    out
}

} // verus!
