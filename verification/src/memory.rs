//! Per-project memory notes: file names, note files with a front-matter
//! header, and the `MEMORY.md` index rebuilt from the notes.
//!
//! The tool's file reads and writes happen at the edge; this module decides
//! what is written and how the index is built from what was read.
use vstd::prelude::*;
use crate::text::{
    ascii_lower, find_from, find_spec, first_of, from_char_range, is_ascii_alnum,
    is_ascii_alphanumeric, is_whitespace, is_ws, lines_spec, occurs_at, push_str, skip_ws_backward,
    skip_ws_forward, split_lines, starts_with_seq, string_push, strs_view, to_ascii_lowercase,
    to_chars, trim, trim_chars, trim_end, trim_start, decimal,
};
use crate::tool::{string_property, Tool, ToolProperty, ToolPropertyView, ToolView};

verus! {

broadcast use vstd::string::group_string_axioms;

// ---------------------------------------------------------------------------
// Slugs
// ---------------------------------------------------------------------------

/// What one character of a name becomes in its slug: letters, digits, `_`
/// and `-` are kept (ASCII-lowercased), whitespace becomes `_`, anything
/// else is dropped.
pub open spec fn slug_char(c: char) -> Seq<char> {
    if is_ascii_alnum(c) || c == '_' || c == '-' {
        seq![ascii_lower(c)]
    } else if is_ws(c) {
        seq!['_']
    } else {
        seq![]
    }
}

/// The slug characters of a whole name, before trimming.
pub open spec fn slug_raw(s: Seq<char>) -> Seq<char>
    decreases s.len(),
{
    if s.len() == 0 {
        seq![]
    } else {
        slug_raw(s.drop_last()) + slug_char(s.last())
    }
}

/// `s` without leading `c` characters.
pub open spec fn strip_leading(s: Seq<char>, c: char) -> Seq<char>
    decreases s.len(),
{
    if s.len() > 0 && s[0] == c {
        strip_leading(s.drop_first(), c)
    } else {
        s
    }
}

/// `s` without trailing `c` characters.
pub open spec fn strip_trailing(s: Seq<char>, c: char) -> Seq<char>
    decreases s.len(),
{
    if s.len() > 0 && s.last() == c {
        strip_trailing(s.drop_last(), c)
    } else {
        s
    }
}

/// The slug of a name (`slugify`): the slug characters with leading and
/// trailing underscores removed.
pub open spec fn slugify_spec(name: Seq<char>) -> Seq<char> {
    strip_trailing(strip_leading(slug_raw(name), '_'), '_')
}

fn slug_piece(c: char) -> (r: Option<char>)
    ensures
        match r {
            Some(d) => slug_char(c) == seq![d],
            None => slug_char(c) == Seq::<char>::empty(),
        },
{
    if is_ascii_alphanumeric(c) || c == '_' || c == '-' {
        Some(to_ascii_lowercase(c))
    } else if is_whitespace(c) {
        Some('_')
    } else {
        None
    }
}

/// Turn an arbitrary memory name into a filesystem-safe slug.
/// Keeps alphanumerics + `_`/`-`; replaces whitespace with `_`; drops
/// anything else; trims `_` from both ends.
pub fn slugify(name: &str) -> (r: String)
    ensures
        r@ == slugify_spec(name@),
{
    let v = to_chars(name);
    let mut out: Vec<char> = Vec::new();
    let mut i: usize = 0;
    assert(v@.take(0) =~= seq![]);
    while i < v.len()
        invariant
            i <= v@.len(),
            out@ == slug_raw(v@.take(i as int)),
        decreases v@.len() - i,
    {
        assert(v@.take(i + 1).drop_last() =~= v@.take(i as int));
        match slug_piece(v[i]) {
            Some(d) => out.push(d),
            None => {},
        }
        assert(out@ =~= slug_raw(v@.take(i + 1)));
        i = i + 1;
    }
    assert(v@.take(v@.len() as int) =~= v@);
    let n = out.len();
    let mut a: usize = 0;
    assert(out@.subrange(0, n as int) =~= out@);
    while a < n && out[a] == '_'
        invariant
            n == out@.len(),
            a <= n,
            strip_leading(out@, '_') == strip_leading(out@.subrange(a as int, n as int), '_'),
        decreases n - a,
    {
        assert(out@.subrange(a as int, n as int).drop_first() =~= out@.subrange(a + 1, n as int));
        a = a + 1;
    }
    assert(out@.subrange(0, n as int) =~= out@);
    let mut b: usize = n;
    while b > a && out[b - 1] == '_'
        invariant
            n == out@.len(),
            a <= b <= n,
            strip_leading(out@, '_') == out@.subrange(a as int, n as int),
            strip_trailing(out@.subrange(a as int, n as int), '_') == strip_trailing(
                out@.subrange(a as int, b as int),
                '_',
            ),
        decreases b - a,
    {
        assert(out@.subrange(a as int, b as int).drop_last() =~= out@.subrange(a as int, b - 1));
        b = b - 1;
    }
    from_char_range(out.as_slice(), a, b)
}

// ---------------------------------------------------------------------------
// Memory files
// ---------------------------------------------------------------------------

/// The text of a memory file: a front-matter header with name, description
/// and type, then the content without trailing whitespace.
pub open spec fn render_memory_spec(
    name: Seq<char>,
    description: Seq<char>,
    kind: Seq<char>,
    content: Seq<char>,
) -> Seq<char> {
    "---\nname: "@ + name + "\ndescription: "@ + description + "\ntype: "@ + kind + "\n---\n\n"@
        + trim_end(content) + "\n"@
}

/// Renders a memory file.
pub fn render_memory_file(name: &str, description: &str, kind: &str, content: &str) -> (r: String)
    ensures
        r@ == render_memory_spec(name@, description@, kind@, content@),
{
    let c = to_chars(content);
    let end = skip_ws_backward(c.as_slice(), 0, c.len());
    assert(c@.subrange(0, c@.len() as int) =~= c@);
    let trimmed = from_char_range(c.as_slice(), 0, end);
    let mut s = "---\nname: ".to_string();
    push_str(&mut s, name);
    push_str(&mut s, "\ndescription: ");
    push_str(&mut s, description);
    push_str(&mut s, "\ntype: ");
    push_str(&mut s, kind);
    push_str(&mut s, "\n---\n\n");
    push_str(&mut s, trimmed.as_str());
    push_str(&mut s, "\n");
    s
}

/// Per-file summary used to rebuild MEMORY.md.
#[derive(Debug)]
pub struct MemoryEntry {
    pub slug: String,
    pub name: String,
    pub description: String,
}

/// The value of the last front-matter line that (trimmed) starts with
/// `key`, trimmed.
pub open spec fn last_value(lines: Seq<Seq<char>>, key: Seq<char>) -> Option<Seq<char>>
    decreases lines.len(),
{
    if lines.len() == 0 {
        None
    } else {
        let l = trim(lines.last());
        if starts_with_seq(l, key) {
            Some(trim(l.skip(key.len() as int)))
        } else {
            last_value(lines.drop_last(), key)
        }
    }
}

/// The name and description a memory file declares: the file must start
/// (after whitespace) with `---`, and the front matter runs up to the next
/// line starting with `---`; the name is required, the description
/// defaults to empty.
pub open spec fn frontmatter_spec(text: Seq<char>) -> Option<(Seq<char>, Seq<char>)> {
    let t = trim_start(text);
    if !starts_with_seq(t, "---"@) {
        None
    } else {
        let rest = t.skip(3);
        match find_spec(rest, "\n---"@, 0) {
            None => None,
            Some(e) => {
                let ls = lines_spec(rest.take(e));
                match last_value(ls, "name:"@) {
                    None => None,
                    Some(n) => Some(
                        (
                            n,
                            match last_value(ls, "description:"@) {
                                Some(d) => d,
                                None => seq![],
                            },
                        ),
                    ),
                }
            },
        }
    }
}

/// The trimmed value after `key` if the trimmed line starts with it.
fn line_value(line: &[char], key: &[char]) -> (r: Option<Vec<char>>)
    ensures
        match r {
            Some(v) => starts_with_seq(trim(line@), key@) && v@ == trim(
                trim(line@).skip(key@.len() as int),
            ),
            None => !starts_with_seq(trim(line@), key@),
        },
{
    let t = trim_chars(line);
    if crate::text::matches_at(t.as_slice(), key, 0) {
        let n = t.len();
        let a = skip_ws_forward(t.as_slice(), key.len(), n);
        let b = skip_ws_backward(t.as_slice(), a, n);
        let mut v: Vec<char> = Vec::new();
        let mut i = a;
        while i < b
            invariant
                a <= i <= b <= n == t@.len(),
                v@ == t@.subrange(a as int, i as int),
            decreases b - i,
        {
            v.push(t[i]);
            assert(t@.subrange(a as int, i as int).push(t@[i as int]) =~= t@.subrange(
                a as int,
                i + 1,
            ));
            i = i + 1;
        }
        assert(t@.skip(key@.len() as int) =~= t@.subrange(key@.len() as int, n as int));
        Some(v)
    } else {
        None
    }
}

fn last_value_of(lines: &Vec<Vec<char>>, key: &[char]) -> (r: Option<Vec<char>>)
    ensures
        match r {
            Some(v) => last_value(lines@.map_values(|l: Vec<char>| l@), key@) == Some(v@),
            None => last_value(lines@.map_values(|l: Vec<char>| l@), key@) is None,
        },
{
    let ghost ls = lines@.map_values(|l: Vec<char>| l@);
    let mut i = lines.len();
    assert(ls.take(i as int) =~= ls);
    while i > 0
        invariant
            i <= lines@.len(),
            ls == lines@.map_values(|l: Vec<char>| l@),
            last_value(ls, key@) == last_value(ls.take(i as int), key@),
        decreases i,
    {
        assert(ls.take(i as int).last() == ls[i - 1]);
        assert(ls.take(i as int).drop_last() =~= ls.take(i - 1));
        match line_value(lines[i - 1].as_slice(), key) {
            Some(v) => {
                return Some(v);
            },
            None => {},
        }
        i = i - 1;
    }
    assert(ls.take(0) =~= seq![]);
    None
}

/// Reads the name and description of a memory file. The slug is left
/// empty for the caller to fill in.
pub fn parse_frontmatter(text: &str) -> (r: Option<MemoryEntry>)
    ensures
        match r {
            Some(e) => frontmatter_spec(text@) == Some((e.name@, e.description@)) && e.slug@.len() == 0,
            None => frontmatter_spec(text@) is None,
        },
{
    let all = to_chars(text);
    let n = all.len();
    let start = skip_ws_forward(all.as_slice(), 0, n);
    assert(all@.subrange(0, n as int) =~= all@);
    let t = from_char_range(all.as_slice(), start, n);
    let tv = to_chars(t.as_str());
    let dashes = to_chars("---");
    if !crate::text::matches_at(tv.as_slice(), dashes.as_slice(), 0) {
        return None;
    }
    proof {
        reveal_strlit("---");
    }
    let mut rest: Vec<char> = Vec::new();
    let mut i: usize = 3;
    let tn = tv.len();
    while i < tn
        invariant
            3 <= i <= tn == tv@.len(),
            rest@ == tv@.subrange(3, i as int),
        decreases tn - i,
    {
        rest.push(tv[i]);
        assert(tv@.subrange(3, i as int).push(tv@[i as int]) =~= tv@.subrange(3, i + 1));
        i = i + 1;
    }
    assert(rest@ =~= tv@.skip(3));
    let marker = to_chars("\n---");
    let end = match find_from(rest.as_slice(), marker.as_slice(), 0) {
        Some(e) => e,
        None => return None,
    };
    let fm = from_char_range(rest.as_slice(), 0, end);
    assert(fm@ =~= rest@.take(end as int));
    let fmc = to_chars(fm.as_str());
    let lines = split_lines(fmc.as_slice());
    assert(lines@.map_values(|l: Vec<char>| l@) =~= lines_spec(fm@));
    let name_key = to_chars("name:");
    let desc_key = to_chars("description:");
    let name = match last_value_of(&lines, name_key.as_slice()) {
        Some(v) => v,
        None => return None,
    };
    let description = match last_value_of(&lines, desc_key.as_slice()) {
        Some(v) => v,
        None => Vec::new(),
    };
    Some(
        MemoryEntry {
            slug: String::new(),
            name: from_char_range(name.as_slice(), 0, name.len()),
            description: from_char_range(description.as_slice(), 0, description.len()),
        },
    )
}

} // verus!

verus! {

// ---------------------------------------------------------------------------
// The MEMORY.md index
// ---------------------------------------------------------------------------

/// A directory entry is a memory note when its name ends in `.md` with a
/// non-empty stem (so that `.md` is its extension).
pub open spec fn is_md_name(name: Seq<char>) -> bool {
    name.len() >= 4 && name.subrange(name.len() - 3, name.len() as int) == ".md"@
}

/// The name with every trailing `.md` removed (`trim_end_matches(".md")`).
pub open spec fn strip_md(name: Seq<char>) -> Seq<char>
    decreases name.len(),
{
    if name.len() >= 3 && name.subrange(name.len() - 3, name.len() as int) == ".md"@ {
        strip_md(name.take(name.len() - 3))
    } else {
        name
    }
}

/// The index contents after reading the files `(file name, text)` in
/// order: each note with a front matter, keyed by its slug, a later file
/// with the same slug replacing an earlier one.
pub open spec fn index_map(files: Seq<(Seq<char>, Seq<char>)>) -> Map<Seq<char>, (Seq<char>, Seq<char>)>
    decreases files.len(),
{
    if files.len() == 0 {
        Map::empty()
    } else {
        let m = index_map(files.drop_last());
        let f = files.last();
        if is_md_name(f.0) && f.0 != "MEMORY.md"@ && frontmatter_spec(f.1) is Some {
            m.insert(strip_md(f.0), frontmatter_spec(f.1)->0)
        } else {
            m
        }
    }
}

pub open spec fn files_view(files: Seq<(String, String)>) -> Seq<(Seq<char>, Seq<char>)> {
    files.map_values(|p: (String, String)| (p.0@, p.1@))
}

/// Entries sorted by slug, no slug twice.
pub open spec fn sorted_by_slug(es: Seq<MemoryEntry>) -> bool {
    forall|i: int, j: int| 0 <= i < j < es.len() ==> crate::text::lex_lt(#[trigger] es[i].slug@, #[trigger] es[j].slug@)
}

/// The entries `es` list exactly the notes of `m`.
pub open spec fn lists_exactly(es: Seq<MemoryEntry>, m: Map<Seq<char>, (Seq<char>, Seq<char>)>) -> bool {
    &&& forall|i: int| 0 <= i < es.len() ==> #[trigger] m.contains_key(es[i].slug@) && m[es[i].slug@] == (es[i].name@, es[i].description@)
    &&& forall|k: Seq<char>| #[trigger] m.contains_key(k) ==> exists|i: int| 0 <= i < es.len() && es[i].slug@ == k
}

fn is_md_file(name: &[char]) -> (r: bool)
    ensures
        r == is_md_name(name@),
{
    let ext = to_chars(".md");
    proof {
        reveal_strlit(".md");
    }
    if name.len() < 4 {
        return false;
    }
    let r = crate::text::matches_at(name, ext.as_slice(), name.len() - 3);
    proof {
        if r {
            assert(name@.subrange(name@.len() - 3, name@.len() as int) =~= ".md"@);
        }
    }
    r
}

fn strip_md_len(name: &[char]) -> (r: usize)
    ensures
        r <= name@.len(),
        strip_md(name@) == name@.take(r as int),
{
    let ext = to_chars(".md");
    proof {
        reveal_strlit(".md");
    }
    let mut n = name.len();
    assert(name@.take(n as int) =~= name@);
    while n >= 3 && crate::text::matches_at(name, ext.as_slice(), n - 3)
        invariant
            n <= name@.len(),
            ext@ == ".md"@,
            strip_md(name@) == strip_md(name@.take(n as int)),
        decreases n,
    {
        proof {
            reveal_strlit(".md");
            let t = name@.take(n as int);
            assert(t.subrange(n - 3, n as int) =~= name@.subrange(n - 3, n as int));
            assert(t.len() >= 3 && t.subrange(t.len() - 3, t.len() as int) == ".md"@);
            assert(strip_md(t) == strip_md(t.take(n - 3)));
            assert(t.take(n - 3) =~= name@.take(n - 3));
        }
        n = n - 3;
    }
    proof {
        if n >= 3 {
            assert(name@.take(n as int).subrange(n - 3, n as int) =~= name@.subrange(n - 3, n as int));
        }
    }
    n
}

/// Inserts `e` into sorted `es`, replacing an entry with the same slug.
#[verifier::rlimit(30)]
fn insert_sorted(es: &mut Vec<MemoryEntry>, e: MemoryEntry, Ghost(m): Ghost<Map<Seq<char>, (Seq<char>, Seq<char>)>>)
    requires
        sorted_by_slug(old(es)@),
        lists_exactly(old(es)@, m),
    ensures
        sorted_by_slug(final(es)@),
        lists_exactly(final(es)@, m.insert(e.slug@, (e.name@, e.description@))),
{
    let key = to_chars(e.slug.as_str());
    let mut p: usize = 0;
    while p < es.len() && crate::text::chars_lt(to_chars(es[p].slug.as_str()).as_slice(), key.as_slice())
        invariant
            p <= es@.len(),
            es@ == old(es)@,
            key@ == e.slug@,
            forall|i: int| 0 <= i < p ==> crate::text::lex_lt(#[trigger] es@[i].slug@, e.slug@),
        decreases es@.len() - p,
    {
        p = p + 1;
    }
    let ghost m2 = m.insert(e.slug@, (e.name@, e.description@));
    let ghost old_es = es@;
    if p < es.len() && crate::text::str_eq(es[p].slug.as_str(), e.slug.as_str()) {
        let _ = es.remove(p);
        es.insert(p, e);
        proof {
            assert forall|i: int, j: int| 0 <= i < j < es@.len() implies crate::text::lex_lt(
                #[trigger] es@[i].slug@,
                #[trigger] es@[j].slug@,
            ) by {
                assert(old_es[i].slug@ == es@[i].slug@);
                assert(old_es[j].slug@ == es@[j].slug@);
            }
            assert forall|i: int| 0 <= i < es@.len() implies #[trigger] m2.contains_key(es@[i].slug@)
                && m2[es@[i].slug@] == (es@[i].name@, es@[i].description@) by {
                if i != p {
                    assert(es@[i] == old_es[i]);
                    assert(m.contains_key(old_es[i].slug@));
                    if old_es[i].slug@ == e.slug@ {
                        if i < p {
                            assert(crate::text::lex_lt(old_es[i].slug@, old_es[p as int].slug@));
                        } else {
                            assert(crate::text::lex_lt(old_es[p as int].slug@, old_es[i].slug@));
                        }
                        crate::text::lemma_lex_irrefl(e.slug@);
                    }
                }
            }
            assert forall|k: Seq<char>| #[trigger] m2.contains_key(k) implies exists|i: int|
                0 <= i < es@.len() && es@[i].slug@ == k by {
                if k == e.slug@ {
                    assert(es@[p as int].slug@ == k);
                } else {
                    let i = choose|i: int| 0 <= i < old_es.len() && old_es[i].slug@ == k;
                    assert(es@[i].slug@ == k);
                }
            }
        }
    } else {
        proof {
            if p < old_es.len() {
                crate::text::lemma_lex_total(old_es[p as int].slug@, e.slug@);
            }
        }
        es.insert(p, e);
        proof {
            assert forall|i: int, j: int| 0 <= i < j < es@.len() implies crate::text::lex_lt(
                #[trigger] es@[i].slug@,
                #[trigger] es@[j].slug@,
            ) by {
                if j < p {
                    assert(es@[i] == old_es[i] && es@[j] == old_es[j]);
                } else if j == p {
                    assert(es@[i] == old_es[i]);
                } else if i < p {
                    assert(es@[i] == old_es[i] && es@[j] == old_es[j - 1]);
                    if j - 1 > p {
                        assert(crate::text::lex_lt(old_es[p as int].slug@, old_es[j - 1].slug@));
                        crate::text::lemma_lex_trans(e.slug@, old_es[p as int].slug@, old_es[j - 1].slug@);
                    }
                    crate::text::lemma_lex_trans(old_es[i].slug@, e.slug@, old_es[j - 1].slug@);
                } else if i == p {
                    assert(es@[j] == old_es[j - 1]);
                    if j - 1 > p {
                        assert(crate::text::lex_lt(old_es[p as int].slug@, old_es[j - 1].slug@));
                        crate::text::lemma_lex_trans(e.slug@, old_es[p as int].slug@, old_es[j - 1].slug@);
                    }
                } else {
                    assert(es@[i] == old_es[i - 1] && es@[j] == old_es[j - 1]);
                }
            }
            assert forall|i: int| 0 <= i < es@.len() implies #[trigger] m2.contains_key(es@[i].slug@)
                && m2[es@[i].slug@] == (es@[i].name@, es@[i].description@) by {
                if i < p {
                    assert(es@[i] == old_es[i]);
                    assert(crate::text::lex_lt(old_es[i].slug@, e.slug@));
                    crate::text::lemma_lex_irrefl(e.slug@);
                    assert(old_es[i].slug@ != e.slug@);
                    assert(m.contains_key(old_es[i].slug@));
                    assert(m[old_es[i].slug@] == (old_es[i].name@, old_es[i].description@));
                } else if i == p {
                    assert(es@[i] == e);
                } else {
                    assert(es@[i] == old_es[i - 1]);
                    assert(p < old_es.len());
                    assert(!crate::text::lex_lt(old_es[p as int].slug@, e.slug@));
                    assert(old_es[p as int].slug@ != e.slug@);
                    assert(crate::text::lex_lt(e.slug@, old_es[p as int].slug@));
                    if i - 1 > p {
                        assert(crate::text::lex_lt(old_es[p as int].slug@, old_es[i - 1].slug@));
                        crate::text::lemma_lex_trans(e.slug@, old_es[p as int].slug@, old_es[i - 1].slug@);
                    }
                    assert(crate::text::lex_lt(e.slug@, old_es[i - 1].slug@));
                    crate::text::lemma_lex_irrefl(e.slug@);
                    assert(old_es[i - 1].slug@ != e.slug@);
                    assert(m.contains_key(old_es[i - 1].slug@));
                    assert(m[old_es[i - 1].slug@] == (old_es[i - 1].name@, old_es[i - 1].description@));
                }
            }
            assert forall|k: Seq<char>| #[trigger] m2.contains_key(k) implies exists|i: int|
                0 <= i < es@.len() && es@[i].slug@ == k by {
                if k == e.slug@ {
                    assert(es@[p as int].slug@ == k);
                } else {
                    let i = choose|i: int| 0 <= i < old_es.len() && old_es[i].slug@ == k;
                    if i < p {
                        assert(es@[i].slug@ == k);
                    } else {
                        assert(es@[i + 1].slug@ == k);
                    }
                }
            }
        }
    }
}

/// The notes to list in the index, sorted by slug, from the directory's
/// files `(file name, contents)` in the order they were read.
pub fn collect_entries(files: &[(String, String)]) -> (r: Vec<MemoryEntry>)
    ensures
        sorted_by_slug(r@),
        lists_exactly(r@, index_map(files_view(files@))),
{
    let ghost fv = files_view(files@);
    let mut es: Vec<MemoryEntry> = Vec::new();
    let mut i: usize = 0;
    assert(fv.take(0) =~= seq![]);
    assert(index_map(fv.take(0)) =~= Map::<Seq<char>, (Seq<char>, Seq<char>)>::empty());
    while i < files.len()
        invariant
            i <= files@.len(),
            fv == files_view(files@),
            sorted_by_slug(es@),
            lists_exactly(es@, index_map(fv.take(i as int))),
        decreases files@.len() - i,
    {
        assert(fv.take(i + 1).drop_last() =~= fv.take(i as int));
        assert(fv.take(i + 1).last() == (files@[i as int].0@, files@[i as int].1@));
        let name = to_chars(files[i].0.as_str());
        if is_md_file(name.as_slice()) && !crate::text::str_eq(files[i].0.as_str(), "MEMORY.md") {
            match parse_frontmatter(files[i].1.as_str()) {
                Some(mut e) => {
                    let stem = strip_md_len(name.as_slice());
                    e.slug = from_char_range(name.as_slice(), 0, stem);
                    insert_sorted(&mut es, e, Ghost(index_map(fv.take(i as int))));
                },
                None => {},
            }
        }
        i = i + 1;
    }
    assert(fv.take(files@.len() as int) =~= fv);
    es
}

/// The index line of one note.
pub open spec fn index_line(e: MemoryEntry) -> Seq<char> {
    "- ["@ + e.name@ + "]("@ + e.slug@ + ".md) — "@ + e.description@ + "\n"@
}

pub open spec fn index_lines(es: Seq<MemoryEntry>) -> Seq<char>
    decreases es.len(),
{
    if es.len() == 0 {
        seq![]
    } else {
        index_lines(es.drop_last()) + index_line(es.last())
    }
}

/// The text of MEMORY.md for the given entries.
pub open spec fn index_text(es: Seq<MemoryEntry>) -> Seq<char> {
    "# Memory Index\n\n"@ + if es.len() == 0 {
        "_No memories stored yet. Agents can add entries via the `memory_save` tool._\n"@
    } else {
        index_lines(es)
    }
}

/// Renders MEMORY.md.
pub fn render_index(es: &[MemoryEntry]) -> (r: String)
    ensures
        r@ == index_text(es@),
{
    let mut out = "# Memory Index\n\n".to_string();
    if es.len() == 0 {
        push_str(&mut out, "_No memories stored yet. Agents can add entries via the `memory_save` tool._\n");
        return out;
    }
    let ghost head = out@;
    let mut i: usize = 0;
    assert(es@.take(0) =~= seq![]);
    while i < es.len()
        invariant
            i <= es@.len(),
            out@ == head + index_lines(es@.take(i as int)),
        decreases es@.len() - i,
    {
        assert(es@.take(i + 1).drop_last() =~= es@.take(i as int));
        push_str(&mut out, "- [");
        push_str(&mut out, es[i].name.as_str());
        push_str(&mut out, "](");
        push_str(&mut out, es[i].slug.as_str());
        push_str(&mut out, ".md) — ");
        push_str(&mut out, es[i].description.as_str());
        push_str(&mut out, "\n");
        assert(out@ =~= head + index_lines(es@.take(i + 1)));
        i = i + 1;
    }
    assert(es@.take(es@.len() as int) =~= es@);
    out
}

/// The new MEMORY.md built from the directory's files.
pub fn rebuild_index(files: &[(String, String)]) -> (r: String)
    ensures
        exists|es: Seq<MemoryEntry>|
            sorted_by_slug(es) && lists_exactly(es, index_map(files_view(files@))) && r@ == index_text(es),
{
    let es = collect_entries(files);
    render_index(es.as_slice())
}

} // verus!

verus! {

// ---------------------------------------------------------------------------
// The tool definitions and the checks made before a note is written
// ---------------------------------------------------------------------------

/// The memory tools. Cheap to clone; all state lives on disk.
#[derive(Debug, Clone, Copy)]
pub struct MemoryTool;

/// The recognised memory types.
pub open spec fn memory_types() -> Seq<Seq<char>> {
    seq!["user"@, "feedback"@, "project"@, "reference"@]
}

pub open spec fn save_tool_view() -> ToolView {
    ToolView {
        name: "memory_save"@,
        description: "Persist a typed memory note for this project. Written to ~/.brainwires/projects/<cwd>/memory/<name>.md and indexed in MEMORY.md. Re-saving with the same name updates in place."@,
        properties: seq![
            ToolPropertyView {
                name: "name"@,
                kind: "string"@,
                description: "Stable identifier for the memory. Used as the filename (slugified). Re-saving with the same name overwrites."@,
                allowed: seq![],
                minimum: None,
                maximum: None,
                default_text: None,
                default_number: None,
                item_kind: None,
            },
            ToolPropertyView {
                name: "type"@,
                kind: "string"@,
                description: "One of: user, feedback, project, reference. See memory conventions for when to use each."@,
                allowed: memory_types(),
                minimum: None,
                maximum: None,
                default_text: None,
                default_number: None,
                item_kind: None,
            },
            ToolPropertyView {
                name: "description"@,
                kind: "string"@,
                description: "One-line hook — shown in MEMORY.md so future sessions can decide whether to load this memory."@,
                allowed: seq![],
                minimum: None,
                maximum: None,
                default_text: None,
                default_number: None,
                item_kind: None,
            },
            ToolPropertyView {
                name: "content"@,
                kind: "string"@,
                description: "The memory body in markdown. Lead with the rule/fact itself; for feedback/project types include a short **Why:** line."@,
                allowed: seq![],
                minimum: None,
                maximum: None,
                default_text: None,
                default_number: None,
                item_kind: None,
            },
        ],
        required: seq!["name"@, "type"@, "description"@, "content"@],
        requires_approval: false,
        defer_loading: false,
    }
}

pub open spec fn delete_tool_view() -> ToolView {
    ToolView {
        name: "memory_delete"@,
        description: "Remove a memory note and its entry in MEMORY.md. No-op if the memory doesn't exist."@,
        properties: seq![
            ToolPropertyView {
                name: "name"@,
                kind: "string"@,
                description: "Name of the memory to delete."@,
                allowed: seq![],
                minimum: None,
                maximum: None,
                default_text: None,
                default_number: None,
                item_kind: None,
            },
        ],
        required: seq!["name"@],
        requires_approval: false,
        defer_loading: false,
    }
}

pub open spec fn list_tool_view() -> ToolView {
    ToolView {
        name: "memory_list"@,
        description: "Return the current MEMORY.md index as a string, so the agent can see what's stored."@,
        properties: seq![],
        required: seq![],
        requires_approval: false,
        defer_loading: false,
    }
}

fn memory_type_list() -> (r: Vec<String>)
    ensures
        strs_view(r@) == memory_types(),
{
    let v = vec![
        "user".to_string(),
        "feedback".to_string(),
        "project".to_string(),
        "reference".to_string(),
    ];
    assert(strs_view(v@) =~= memory_types());
    v
}

impl MemoryTool {
    pub fn new() -> (r: MemoryTool) {
        MemoryTool
    }

    /// The definitions of `memory_save`, `memory_delete` and `memory_list`.
    pub fn get_tools() -> (r: Vec<Tool>)
        ensures
            r@.map_values(|t: Tool| t@) == seq![save_tool_view(), delete_tool_view(), list_tool_view()],
    {
        let v = vec![Self::save_tool(), Self::delete_tool(), Self::list_tool()];
        assert(v@.map_values(|t: Tool| t@) =~= seq![save_tool_view(), delete_tool_view(), list_tool_view()]);
        v
    }

    fn save_tool() -> (r: Tool)
        ensures
            r@ == save_tool_view(),
    {
        let name = string_property(
            "name",
            "Stable identifier for the memory. Used as the filename (slugified). Re-saving with the same name overwrites.",
        );
        let mut kind = string_property(
            "type",
            "One of: user, feedback, project, reference. See memory conventions for when to use each.",
        );
        kind.allowed = memory_type_list();
        let description = string_property(
            "description",
            "One-line hook — shown in MEMORY.md so future sessions can decide whether to load this memory.",
        );
        let content = string_property(
            "content",
            "The memory body in markdown. Lead with the rule/fact itself; for feedback/project types include a short **Why:** line.",
        );
        let properties = vec![name, kind, description, content];
        let required = vec![
            "name".to_string(),
            "type".to_string(),
            "description".to_string(),
            "content".to_string(),
        ];
        let t = Tool {
            name: "memory_save".to_string(),
            description: "Persist a typed memory note for this project. Written to ~/.brainwires/projects/<cwd>/memory/<name>.md and indexed in MEMORY.md. Re-saving with the same name updates in place.".to_string(),
            properties,
            required,
            requires_approval: false,
            defer_loading: false,
        };
        assert(t@.properties =~= save_tool_view().properties);
        assert(t@.required =~= save_tool_view().required);
        t
    }

    fn delete_tool() -> (r: Tool)
        ensures
            r@ == delete_tool_view(),
    {
        let properties = vec![string_property("name", "Name of the memory to delete.")];
        let required = vec!["name".to_string()];
        let t = Tool {
            name: "memory_delete".to_string(),
            description: "Remove a memory note and its entry in MEMORY.md. No-op if the memory doesn't exist.".to_string(),
            properties,
            required,
            requires_approval: false,
            defer_loading: false,
        };
        assert(t@.properties =~= delete_tool_view().properties);
        assert(t@.required =~= delete_tool_view().required);
        t
    }

    fn list_tool() -> (r: Tool)
        ensures
            r@ == list_tool_view(),
    {
        let t = Tool {
            name: "memory_list".to_string(),
            description: "Return the current MEMORY.md index as a string, so the agent can see what's stored.".to_string(),
            properties: Vec::new(),
            required: Vec::new(),
            requires_approval: false,
            defer_loading: false,
        };
        assert(t@.properties =~= list_tool_view().properties);
        assert(t@.required =~= list_tool_view().required);
        t
    }
}

} // verus!

verus! {

/// Which memory tool a call names.
#[derive(Debug, Clone, Copy, PartialEq, Eq, Structural)]
pub enum MemoryCommand {
    Save,
    Delete,
    List,
}

/// The message for a call of a tool that is not one of the three.
pub open spec fn unknown_tool_message(tool_name: Seq<char>) -> Seq<char> {
    "Unknown memory tool: "@ + tool_name
}

/// Picks the tool a call names, or the error it is answered with.
pub fn memory_command(tool_name: &str) -> (r: Result<MemoryCommand, String>)
    ensures
        tool_name@ == "memory_save"@ <==> r == Ok::<MemoryCommand, String>(MemoryCommand::Save),
        tool_name@ == "memory_delete"@ <==> r == Ok::<MemoryCommand, String>(MemoryCommand::Delete),
        tool_name@ == "memory_list"@ <==> r == Ok::<MemoryCommand, String>(MemoryCommand::List),
        r is Err ==> r->Err_0@ == unknown_tool_message(tool_name@),
{
    proof {
        reveal_strlit("memory_save");
        reveal_strlit("memory_delete");
        reveal_strlit("memory_list");
        assert("memory_save"@[7] != "memory_delete"@[7]);
        assert("memory_save"@[7] != "memory_list"@[7]);
        assert("memory_delete"@[7] != "memory_list"@[7]);
    }
    if crate::text::str_eq(tool_name, "memory_save") {
        Ok(MemoryCommand::Save)
    } else if crate::text::str_eq(tool_name, "memory_delete") {
        Ok(MemoryCommand::Delete)
    } else if crate::text::str_eq(tool_name, "memory_list") {
        Ok(MemoryCommand::List)
    } else {
        let mut m = "Unknown memory tool: ".to_string();
        push_str(&mut m, tool_name);
        Err(m)
    }
}

/// The message for a save whose type is not a memory type.
pub open spec fn bad_type_message(kind: Seq<char>) -> Seq<char> {
    "type must be one of [\"user\", \"feedback\", \"project\", \"reference\"], got '"@ + kind + "'"@
}

/// The message for a save whose name has no character that survives in a slug.
pub open spec fn empty_slug_message() -> Seq<char> {
    "name must contain at least one alphanumeric character"@
}

/// What a save writes: the note's file name and its text.
#[derive(Debug)]
pub struct NoteFile {
    pub slug: String,
    pub file_name: String,
    pub body: String,
}

/// The file a note of this name is stored in.
pub fn note_file_name(name: &str) -> (r: String)
    ensures
        r@ == slugify_spec(name@) + ".md"@,
{
    let mut f = slugify(name);
    push_str(&mut f, ".md");
    f
}

/// Whether `kind` is one of the memory types.
pub fn is_memory_type(kind: &str) -> (r: bool)
    ensures
        r == memory_types().contains(kind@),
{
    proof {
        reveal_strlit("user");
        reveal_strlit("feedback");
        reveal_strlit("project");
        reveal_strlit("reference");
    }
    let r = crate::text::str_eq(kind, "user") || crate::text::str_eq(kind, "feedback")
        || crate::text::str_eq(kind, "project") || crate::text::str_eq(kind, "reference");
    proof {
        if memory_types().contains(kind@) {
            let i = choose|i: int| 0 <= i < memory_types().len() && memory_types()[i] == kind@;
            assert(i == 0 || i == 1 || i == 2 || i == 3);
        }
        if r {
            if kind@ == "user"@ {
                assert(memory_types()[0] == kind@);
            } else if kind@ == "feedback"@ {
                assert(memory_types()[1] == kind@);
            } else if kind@ == "project"@ {
                assert(memory_types()[2] == kind@);
            } else {
                assert(memory_types()[3] == kind@);
            }
        }
    }
    r
}

/// Checks a save and prepares what it writes: the type must be a memory
/// type, then the name must give a non-empty slug; the note goes to
/// `<slug>.md` with the rendered front matter and body.
pub fn prepare_save(name: &str, kind: &str, description: &str, content: &str) -> (r: Result<NoteFile, String>)
    ensures
        !memory_types().contains(kind@) ==> r is Err && r->Err_0@ == bad_type_message(kind@),
        memory_types().contains(kind@) && slugify_spec(name@).len() == 0 ==> r is Err && r->Err_0@
            == empty_slug_message(),
        memory_types().contains(kind@) && slugify_spec(name@).len() > 0 ==> r is Ok && r->Ok_0.slug@
            == slugify_spec(name@) && r->Ok_0.file_name@ == slugify_spec(name@) + ".md"@ && r->Ok_0.body@
            == render_memory_spec(name@, description@, kind@, content@),
{
    if !is_memory_type(kind) {
        let mut m = "type must be one of [\"user\", \"feedback\", \"project\", \"reference\"], got '".to_string();
        push_str(&mut m, kind);
        push_str(&mut m, "'");
        return Err(m);
    }
    let slug = slugify(name);
    if slug.as_str().is_empty() {
        return Err("name must contain at least one alphanumeric character".to_string());
    }
    let mut file_name = slugify(name);
    push_str(&mut file_name, ".md");
    let body = render_memory_file(name, description, kind, content);
    Ok(NoteFile { slug, file_name, body })
}

} // verus!

verus! {

// ---------------------------------------------------------------------------
// Slugs are fixed points
// ---------------------------------------------------------------------------

/// A character a slug can hold: a lower-case ASCII letter, a digit, `_`
/// or `-`.
pub open spec fn slug_safe(c: char) -> bool {
    crate::text::is_ascii_lower(c) || crate::text::is_ascii_digit(c) || c == '_' || c == '-'
}

pub open spec fn all_slug_safe(s: Seq<char>) -> bool {
    forall|i: int| 0 <= i < s.len() ==> slug_safe(#[trigger] s[i])
}

proof fn lemma_slug_char_safe(c: char)
    ensures
        all_slug_safe(slug_char(c)),
{
    if crate::text::is_ascii_upper(c) {
        let u = c as u32;
        assert(65 <= u <= 90);
        let d = ((c as u32) + 32) as char;
        assert(97 <= (d as u32) <= 122);
        assert('a' as u32 == 97 && 'z' as u32 == 122);
        assert(crate::text::is_ascii_lower(d));
    }
}

proof fn lemma_slug_raw_safe(s: Seq<char>)
    ensures
        all_slug_safe(slug_raw(s)),
    decreases s.len(),
{
    if s.len() > 0 {
        lemma_slug_raw_safe(s.drop_last());
        lemma_slug_char_safe(s.last());
        let a = slug_raw(s.drop_last());
        let b = slug_char(s.last());
        assert forall|i: int| 0 <= i < (a + b).len() implies slug_safe(#[trigger] (a + b)[i]) by {
            if i >= a.len() {
                assert((a + b)[i] == b[i - a.len()]);
            }
        }
    }
}

/// Stripping leading characters leaves a suffix.
proof fn lemma_strip_leading_suffix(s: Seq<char>, c: char)
    ensures
        exists|k: int| 0 <= k <= s.len() && strip_leading(s, c) == s.skip(k),
        strip_leading(s, c).len() == 0 || strip_leading(s, c)[0] != c,
    decreases s.len(),
{
    if s.len() > 0 && s[0] == c {
        lemma_strip_leading_suffix(s.drop_first(), c);
        let k = choose|k: int| 0 <= k <= s.drop_first().len() && strip_leading(s.drop_first(), c) == s.drop_first().skip(k);
        assert(s.drop_first().skip(k) =~= s.skip(k + 1));
    } else {
        assert(s.skip(0) =~= s);
    }
}

/// Stripping trailing characters leaves a prefix.
proof fn lemma_strip_trailing_prefix(s: Seq<char>, c: char)
    ensures
        exists|k: int| 0 <= k <= s.len() && strip_trailing(s, c) == s.take(k),
        strip_trailing(s, c).len() == 0 || strip_trailing(s, c).last() != c,
    decreases s.len(),
{
    if s.len() > 0 && s.last() == c {
        lemma_strip_trailing_prefix(s.drop_last(), c);
        let k = choose|k: int| 0 <= k <= s.drop_last().len() && strip_trailing(s.drop_last(), c) == s.drop_last().take(k);
        assert(s.drop_last().take(k) =~= s.take(k));
    } else {
        assert(s.take(s.len() as int) =~= s);
    }
}

/// A string of slug characters is its own raw slug.
proof fn lemma_slug_raw_fixed(s: Seq<char>)
    requires
        all_slug_safe(s),
    ensures
        slug_raw(s) == s,
    decreases s.len(),
{
    if s.len() > 0 {
        assert(all_slug_safe(s.drop_last())) by {
            assert forall|i: int| 0 <= i < s.drop_last().len() implies slug_safe(#[trigger] s.drop_last()[i]) by {
                assert(s.drop_last()[i] == s[i]);
            }
        }
        lemma_slug_raw_fixed(s.drop_last());
        let c = s.last();
        assert(slug_safe(s[s.len() - 1]));
        assert(slug_char(c) == seq![c]);
        assert(s.drop_last() + seq![c] =~= s);
    }
}

/// The slug has no underscore at either end and holds slug characters
/// only.
proof fn lemma_slug_shape(name: Seq<char>)
    ensures
        all_slug_safe(slugify_spec(name)),
        slugify_spec(name).len() == 0 || (slugify_spec(name)[0] != '_' && slugify_spec(name).last() != '_'),
{
    let r = slug_raw(name);
    lemma_slug_raw_safe(name);
    lemma_strip_leading_suffix(r, '_');
    let z = strip_leading(r, '_');
    let k = choose|k: int| 0 <= k <= r.len() && z == r.skip(k);
    lemma_strip_trailing_prefix(z, '_');
    let y = strip_trailing(z, '_');
    let m = choose|m: int| 0 <= m <= z.len() && y == z.take(m);
    assert forall|i: int| 0 <= i < y.len() implies slug_safe(#[trigger] y[i]) by {
        assert(y[i] == z[i]);
        assert(z[i] == r[i + k]);
    }
    if y.len() > 0 {
        assert(y[0] == z[0]);
    }
}

/// Slugifying a slug gives it back: a slug is already a safe file name.
pub proof fn lemma_slugify_idempotent(name: Seq<char>)
    ensures
        slugify_spec(slugify_spec(name)) == slugify_spec(name),
{
    let y = slugify_spec(name);
    lemma_slug_shape(name);
    lemma_slug_raw_fixed(y);
    if y.len() > 0 {
        assert(strip_leading(y, '_') == y);
        assert(strip_trailing(y, '_') == y);
    } else {
        assert(strip_leading(y, '_') == y);
        assert(strip_trailing(y, '_') == y);
    }
}

} // verus!

