//! Reading back a memory file: the header a written file starts with
//! gives back the name and description it was written with.
use vstd::prelude::*;
use crate::memory::{frontmatter_spec, last_value, render_memory_spec};
use crate::text::{starts_with_seq, trim, trim_end, trim_start};

verus! {

// ---------------------------------------------------------------------------
// Reading back a written memory file
// ---------------------------------------------------------------------------

pub open spec fn no_newline(s: Seq<char>) -> bool {
    forall|i: int| 0 <= i < s.len() ==> s[i] != '\n'
}

/// The value read back from a header line `<key> <value>` (with `key`
/// ending in `:`) is the trimmed value.
proof fn lemma_header_value(key: Seq<char>, v: Seq<char>)
    requires
        key.len() > 0,
        key.last() == ':',
        !crate::text::is_ws(key[0]),
    ensures
        starts_with_seq(trim(key + " "@ + v), key),
        trim(trim(key + " "@ + v).skip(key.len() as int)) == trim(v),
        trim(strip_cr_line(key + " "@ + v)) == trim(key + " "@ + v),
{
    reveal_strlit(" ");
    let l = key + " "@ + v;
    assert(l =~= key + (" "@ + v));
    assert(l[0] == key[0]);
    assert(trim_start(l) == l);
    crate::text::lemma_trim_end_concat(key, " "@ + v);
    let t = key + trim_end(" "@ + v);
    assert(trim(l) == t);
    assert(t.subrange(0, key.len() as int) =~= key);
    assert(t.skip(key.len() as int) =~= trim_end(" "@ + v));
    crate::text::lemma_trim_of_trim_end(" "@ + v);
    assert((" "@ + v)[0] == ' ');
    assert((" "@ + v).drop_first() =~= v);
    assert(trim_start(" "@ + v) == trim_start(v));
    if l.last() == '\r' {
        let m = l.drop_last();
        assert(m =~= key + (" "@ + v).drop_last());
        assert(m[0] == key[0]);
        assert(trim_start(m) == m);
        assert(crate::text::is_ws('\r'));
        assert(trim_end(l) == trim_end(m));
    }
}

/// `strip_cr`, under a name local to this proof.
pub open spec fn strip_cr_line(l: Seq<char>) -> Seq<char> {
    crate::text::strip_cr(l)
}

/// A trimmed header line starting with `k0` cannot start with a key whose
/// first character differs.
proof fn lemma_other_key(key: Seq<char>, other: Seq<char>, v: Seq<char>)
    requires
        key.len() > 0,
        key.last() == ':',
        !crate::text::is_ws(key[0]),
        other.len() > 0,
        other[0] != key[0],
    ensures
        !starts_with_seq(trim(strip_cr_line(key + " "@ + v)), other),
        !starts_with_seq(trim(key + " "@ + v), other),
{
    lemma_header_value(key, v);
    let l = key + " "@ + v;
    let t = trim(l);
    assert(t[0] == key[0]) by {
        assert(starts_with_seq(t, key));
        assert(t.subrange(0, key.len() as int)[0] == t[0]);
    }
}

/// The header lines between the opening and the closing `---`.
pub open spec fn header_of(name: Seq<char>, description: Seq<char>, kind: Seq<char>) -> Seq<char> {
    "\nname: "@ + name + "\ndescription: "@ + description + "\ntype: "@ + kind
}

/// The closing line is the first `\n---` after the opening one.
#[verifier::rlimit(40)]
proof fn lemma_header_end(name: Seq<char>, description: Seq<char>, kind: Seq<char>, tail: Seq<char>)
    requires
        no_newline(name),
        no_newline(description),
        no_newline(kind),
        tail.len() >= 4,
        tail.take(4) == "\n---"@,
    ensures
        crate::text::find_spec(header_of(name, description, kind) + tail, "\n---"@, 0) == Some(
            header_of(name, description, kind).len() as int,
        ),
{
    reveal_strlit("\nname: ");
    reveal_strlit("\ndescription: ");
    reveal_strlit("\ntype: ");
    reveal_strlit("\n---");
    let a = "\nname: "@;
    let b = "\ndescription: "@;
    let t = "\ntype: "@;
    let head = header_of(name, description, kind);
    let rest = head + tail;
    let e = head.len() as int;
    let n1 = 7 + name.len();
    let n2 = n1 + 14 + description.len();
    assert(e == n2 + 7 + kind.len());
    assert(crate::text::occurs_at(rest, "\n---"@, e)) by {
        assert(rest.subrange(e, e + 4) =~= tail.take(4));
    }
    assert forall|j: int| 0 <= j < e implies !crate::text::occurs_at(rest, "\n---"@, j) by {
        if crate::text::occurs_at(rest, "\n---"@, j) {
            assert(rest.subrange(j, j + 4)[0] == '\n');
            assert(rest.subrange(j, j + 4)[1] == '-');
            assert(rest[j] == '\n');
            assert(rest[j + 1] == '-');
            if j < 7 {
                assert(rest[j] == a[j]);
                assert(j == 0);
                assert(rest[1] == a[1]);
            } else if j < n1 {
                assert(rest[j] == name[j - 7]);
            } else if j < n1 + 14 {
                assert(rest[j] == b[j - n1]);
                assert(j == n1);
                assert(rest[j + 1] == b[1]);
            } else if j < n2 {
                assert(rest[j] == description[j - n1 - 14]);
            } else if j < n2 + 7 {
                assert(rest[j] == t[j - n2]);
                assert(j == n2);
                assert(rest[j + 1] == t[1]);
            } else {
                assert(rest[j] == kind[j - n2 - 7]);
            }
        }
    }
    crate::text::lemma_find_spec_some(rest, "\n---"@, 0, e);
}

/// The header's lines: an empty one, then the name, description and type
/// lines.
#[verifier::rlimit(40)]
proof fn lemma_header_lines(name: Seq<char>, description: Seq<char>, kind: Seq<char>)
    requires
        no_newline(name),
        no_newline(description),
        no_newline(kind),
    ensures
        crate::text::lines_spec(header_of(name, description, kind)) == seq![
            Seq::<char>::empty(),
            strip_cr_line("name:"@ + " "@ + name),
            strip_cr_line("description:"@ + " "@ + description),
            "type:"@ + " "@ + kind,
        ],
{
    reveal_strlit("\nname: ");
    reveal_strlit("\ndescription: ");
    reveal_strlit("\ntype: ");
    reveal_strlit("name: ");
    reveal_strlit("description: ");
    reveal_strlit("type: ");
    reveal_strlit("name:");
    reveal_strlit("description:");
    reveal_strlit("type:");
    reveal_strlit(" ");
    let b = "\ndescription: "@;
    let t = "\ntype: "@;
    let head = header_of(name, description, kind);
    let line1 = "name: "@ + name;
    let line2 = "description: "@ + description;
    let line3 = "type: "@ + kind;
    assert(line1 =~= "name:"@ + " "@ + name);
    assert(line2 =~= "description:"@ + " "@ + description);
    assert(line3 =~= "type:"@ + " "@ + kind);
    let h1 = head.skip(1);
    assert(h1 =~= line1 + b + description + t + kind);
    crate::text::lemma_first_nl_at(head, 0);
    assert(head.take(0) =~= Seq::<char>::empty());
    assert(crate::text::lines_spec(head) == seq![crate::text::strip_cr(head.take(0))] + crate::text::lines_spec(h1));
    let h2 = h1.skip(line1.len() as int + 1);
    assert(h2 =~= line2 + t + kind);
    assert forall|k: int| 0 <= k < line1.len() implies h1[k] != '\n' by {
        if k >= 6 {
            assert(h1[k] == name[k - 6]);
        }
    }
    crate::text::lemma_first_nl_at(h1, line1.len() as int);
    assert(h1.take(line1.len() as int) =~= line1);
    assert(crate::text::lines_spec(h1) == seq![crate::text::strip_cr(line1)] + crate::text::lines_spec(h2));
    let h3 = h2.skip(line2.len() as int + 1);
    assert(h3 =~= line3);
    assert forall|k: int| 0 <= k < line2.len() implies h2[k] != '\n' by {
        if k >= 13 {
            assert(h2[k] == description[k - 13]);
        }
    }
    crate::text::lemma_first_nl_at(h2, line2.len() as int);
    assert(h2.take(line2.len() as int) =~= line2);
    assert(crate::text::lines_spec(h2) == seq![crate::text::strip_cr(line2)] + crate::text::lines_spec(h3));
    assert forall|k: int| 0 <= k < h3.len() implies h3[k] != '\n' by {
        if k >= 6 {
            assert(h3[k] == kind[k - 6]);
        }
    }
    crate::text::lemma_first_nl_at(h3, h3.len() as int);
    assert(crate::text::lines_spec(h3) == seq![h3]);
    assert(crate::text::lines_spec(head) =~= seq![
        Seq::<char>::empty(),
        crate::text::strip_cr(line1),
        crate::text::strip_cr(line2),
        line3,
    ]);
}

/// The values read from the header lines.
proof fn lemma_header_values(name: Seq<char>, description: Seq<char>, kind: Seq<char>)
    ensures
        ({
            let ls = seq![
                Seq::<char>::empty(),
                strip_cr_line("name:"@ + " "@ + name),
                strip_cr_line("description:"@ + " "@ + description),
                "type:"@ + " "@ + kind,
            ];
            &&& last_value(ls, "name:"@) == Some(trim(name))
            &&& last_value(ls, "description:"@) == Some(trim(description))
        }),
{
    reveal_strlit("name:");
    reveal_strlit("description:");
    reveal_strlit("type:");
    let kn = "name:"@;
    let kd = "description:"@;
    let kt = "type:"@;
    let ls = seq![
        Seq::<char>::empty(),
        strip_cr_line(kn + " "@ + name),
        strip_cr_line(kd + " "@ + description),
        kt + " "@ + kind,
    ];
    lemma_header_value(kn, name);
    lemma_header_value(kd, description);
    lemma_other_key(kt, kn, kind);
    lemma_other_key(kt, kd, kind);
    lemma_other_key(kd, kn, description);
    let l1 = ls.drop_last();
    let l2 = l1.drop_last();
    assert(ls.last() == kt + " "@ + kind);
    assert(l1.last() == strip_cr_line(kd + " "@ + description));
    assert(l2.last() == strip_cr_line(kn + " "@ + name));
    assert(last_value(ls, kn) == last_value(l1, kn));
    assert(last_value(l1, kn) == last_value(l2, kn));
    assert(trim(l2.last()) == trim(kn + " "@ + name));
    assert(last_value(l2, kn) == Some(trim(name)));
    assert(last_value(ls, kd) == last_value(l1, kd));
    assert(trim(l1.last()) == trim(kd + " "@ + description));
    assert(last_value(l1, kd) == Some(trim(description)));
}

/// Reading back a memory file gives the trimmed name and description it
/// was written with, as long as neither the name, the description nor the
/// type holds a line break.
pub proof fn lemma_memory_file_round_trip(name: Seq<char>, description: Seq<char>, kind: Seq<char>, content: Seq<char>)
    requires
        no_newline(name),
        no_newline(description),
        no_newline(kind),
    ensures
        frontmatter_spec(render_memory_spec(name, description, kind, content)) == Some(
            (trim(name), trim(description)),
        ),
{
    reveal_strlit("---\nname: ");
    reveal_strlit("\nname: ");
    reveal_strlit("---");
    reveal_strlit("\n---\n\n");
    reveal_strlit("\n---");
    let text = render_memory_spec(name, description, kind, content);
    let head = header_of(name, description, kind);
    let tail = "\n---\n\n"@ + trim_end(content) + "\n"@;
    assert(text =~= "---"@ + (head + tail));
    assert(text[0] == '-');
    assert(!crate::text::is_ws('-'));
    assert(trim_start(text) == text);
    assert(starts_with_seq(text, "---"@)) by {
        assert(text.subrange(0, 3) =~= "---"@);
    }
    let rest = text.skip(3);
    assert(rest =~= head + tail);
    assert(tail.take(4) =~= "\n---"@);
    lemma_header_end(name, description, kind, tail);
    assert(rest.take(head.len() as int) =~= head);
    lemma_header_lines(name, description, kind);
    lemma_header_values(name, description, kind);
}

} // verus!
