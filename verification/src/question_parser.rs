//! Clarifying questions: the question block an AI response may end with,
//! its validation, and the natural-language answer sent back.
use vstd::prelude::*;
use vstd::string::StringSliceAdditionalSpecFns;
use vstd::utf8::{encode_utf8, decode_utf8, is_char_boundary};
use crate::text::{
    contains_seq, find_from, find_spec, from_char_range, is_blank, join, join_strings, occurs_at, owned, split_words,
    strs_view, to_chars, trim, trim_str, words, utf8_len_at_most, skip_ws_backward, skip_ws_forward, push_str,
};

verus! {

broadcast use vstd::string::group_string_axioms, vstd::utf8::group_utf8_lib;

/// The kinds of ambiguity a clarifying question can address.
#[derive(Debug, Clone, Copy, PartialEq, Eq, Structural)]
pub enum AmbiguityType {
    /// A term with more than one meaning
    Semantic,
    /// A request that should be broadened
    Generalize,
    /// A request that needs more detail
    Specify,
}

/// Ambiguity analysis attached to a question block.
#[derive(Debug, Clone)]
pub struct AmbiguityAnalysis {
    pub predicted_types: Vec<AmbiguityType>,
    pub reasoning: String,
}

/// One answer option of a question.
#[derive(Debug, Clone)]
pub struct QuestionOption {
    pub id: String,
    pub label: String,
    pub description: Option<String>,
}

/// A clarifying question.
#[derive(Debug, Clone)]
pub struct ClarifyingQuestion {
    pub id: String,
    pub question: String,
    pub header: String,
    pub multi_select: bool,
    pub ambiguity_type: Option<AmbiguityType>,
    pub options: Vec<QuestionOption>,
}

/// The questions of one response.
#[derive(Debug, Clone)]
pub struct QuestionBlock {
    pub ambiguity_analysis: Option<AmbiguityAnalysis>,
    pub questions: Vec<ClarifyingQuestion>,
}

/// The user's answers while the questions are shown.
#[derive(Debug, Clone)]
pub struct QuestionAnswerState {
    /// Per question, per option: whether it is selected
    pub selected_options: Vec<Vec<bool>>,
    /// Per question: whether "Other" is selected
    pub other_selected: Vec<bool>,
    /// Per question: the text typed for "Other"
    pub other_text: Vec<String>,
}

impl QuestionAnswerState {
    /// Nothing selected, no text typed.
    pub fn new(block: &QuestionBlock) -> (r: QuestionAnswerState)
        ensures
            r.selected_options@.len() == block.questions@.len(),
            forall|i: int|
                0 <= i < block.questions@.len() ==> (#[trigger] r.selected_options@[i])@.len()
                    == block.questions@[i].options@.len() && forall|j: int|
                    0 <= j < block.questions@[i].options@.len() ==> !r.selected_options@[i]@[j],
            r.other_selected@.len() == block.questions@.len(),
            forall|i: int| 0 <= i < block.questions@.len() ==> !r.other_selected@[i],
            r.other_text@.len() == block.questions@.len(),
            forall|i: int| 0 <= i < block.questions@.len() ==> r.other_text@[i]@.len() == 0,
    {
        let n = block.questions.len();
        let mut selected_options: Vec<Vec<bool>> = Vec::new();
        let mut other_selected: Vec<bool> = Vec::new();
        let mut other_text: Vec<String> = Vec::new();
        let mut i: usize = 0;
        while i < n
            invariant
                n == block.questions@.len(),
                i <= n,
                selected_options@.len() == i,
                other_selected@.len() == i,
                other_text@.len() == i,
                forall|k: int|
                    0 <= k < i ==> (#[trigger] selected_options@[k])@.len() == block.questions@[k].options@.len()
                        && forall|j: int| 0 <= j < block.questions@[k].options@.len() ==> !selected_options@[k]@[j],
                forall|k: int| 0 <= k < i ==> !other_selected@[k],
                forall|k: int| 0 <= k < i ==> other_text@[k]@.len() == 0,
            decreases n - i,
        {
            let m = block.questions[i].options.len();
            let mut row: Vec<bool> = Vec::new();
            let mut j: usize = 0;
            while j < m
                invariant
                    j <= m,
                    row@.len() == j,
                    forall|t: int| 0 <= t < j ==> !row@[t],
                decreases m - j,
            {
                row.push(false);
                j = j + 1;
            }
            selected_options.push(row);
            other_selected.push(false);
            other_text.push(String::new());
            i = i + 1;
        }
        QuestionAnswerState { selected_options, other_selected, other_text }
    }
}

// ---------------------------------------------------------------------------
// Validation
// ---------------------------------------------------------------------------

/// Number of UTF-8 bytes of a string.
pub open spec fn utf8_len(s: Seq<char>) -> nat {
    encode_utf8(s).len()
}

/// A question is shown when it has 2-4 options, a header of at most 12
/// bytes, and each option label has 1-5 words.
pub open spec fn question_ok(q: ClarifyingQuestion) -> bool {
    &&& 2 <= q.options@.len() <= 4
    &&& utf8_len(q.header@) <= 12
    &&& forall|j: int| 0 <= j < q.options@.len() ==> 1 <= words((#[trigger] q.options@[j]).label@).len() <= 5
}

/// A question block is accepted when it has 1-4 questions and each is valid.
/// (The ambiguity analysis is optional and does not affect acceptance.)
pub open spec fn block_ok(b: QuestionBlock) -> bool {
    &&& 1 <= b.questions@.len() <= 4
    &&& forall|i: int| 0 <= i < b.questions@.len() ==> question_ok(#[trigger] b.questions@[i])
}

/// An ambiguity analysis is well-formed when it predicts at least one type
/// and gives a non-blank reasoning.
pub open spec fn analysis_ok(a: AmbiguityAnalysis) -> bool {
    a.predicted_types@.len() > 0 && trim(a.reasoning@).len() > 0
}

fn question_valid(q: &ClarifyingQuestion) -> (r: bool)
    ensures
        r == question_ok(*q),
{
    if q.options.len() < 2 || q.options.len() > 4 {
        return false;
    }
    let header = to_chars(q.header.as_str());
    if !utf8_len_at_most(header.as_slice(), 12) {
        return false;
    }
    let mut j: usize = 0;
    while j < q.options.len()
        invariant
            2 <= q.options@.len() <= 4,
            utf8_len(q.header@) <= 12,
            j <= q.options@.len(),
            forall|t: int| 0 <= t < j ==> 1 <= words((#[trigger] q.options@[t]).label@).len() <= 5,
        decreases q.options@.len() - j,
    {
        let chars = to_chars(q.options[j].label.as_str());
        let ws = split_words(chars.as_slice());
        if ws.len() == 0 || ws.len() > 5 {
            return false;
        }
        j = j + 1;
    }
    true
}

/// Validate a question block meets our requirements.
pub fn validate_question_block(block: &QuestionBlock) -> (r: bool)
    ensures
        r == block_ok(*block),
{
    if block.questions.len() == 0 || block.questions.len() > 4 {
        return false;
    }
    let mut i: usize = 0;
    while i < block.questions.len()
        invariant
            i <= block.questions@.len(),
            forall|k: int| 0 <= k < i ==> question_ok(#[trigger] block.questions@[k]),
        decreases block.questions@.len() - i,
    {
        if !question_valid(&block.questions[i]) {
            return false;
        }
        i = i + 1;
    }
    true
}

/// Validate ambiguity analysis metadata.
pub fn validate_ambiguity_analysis(analysis: &AmbiguityAnalysis) -> (r: bool)
    ensures
        r == analysis_ok(*analysis),
{
    if analysis.predicted_types.len() == 0 {
        return false;
    }
    if is_blank(analysis.reasoning.as_str()) {
        return false;
    }
    true
}

// ---------------------------------------------------------------------------
// Answers
// ---------------------------------------------------------------------------

/// A question cut to its first 47 bytes when longer than 50 bytes.
pub open spec fn truncate_spec(q: Seq<char>) -> Seq<char> {
    if utf8_len(q) <= 50 {
        q
    } else {
        decode_utf8(encode_utf8(q).subrange(0, 47))
    }
}

/// Cutting a long question must not split a character.
pub open spec fn truncatable(q: Seq<char>) -> bool {
    utf8_len(q) <= 50 || is_char_boundary(encode_utf8(q), 47)
}

/// Truncate a question for display in the answer.
pub fn truncate_question(question: &str) -> (r: &str)
    requires
        truncatable(question@),
    ensures
        r@ == truncate_spec(question@),
{
    let chars = to_chars(question);
    if utf8_len_at_most(chars.as_slice(), 50) {
        question
    } else {
        let (head, _) = question.split_at(47);
        proof {
            vstd::utf8::encode_utf8_decode_utf8(head@);
            assert(head.spec_bytes() == encode_utf8(head@));
            assert(question.spec_bytes() == encode_utf8(question@));
            assert(head.spec_bytes() =~= encode_utf8(question@).subrange(0, 47));
        }
        head
    }
}

/// The labels of the selected options (selections past the last option
/// are ignored).
pub open spec fn selected_labels(opts: Seq<QuestionOption>, sel: Seq<bool>) -> Seq<Seq<char>>
    decreases sel.len(),
{
    if sel.len() == 0 {
        seq![]
    } else {
        let i = sel.len() - 1;
        selected_labels(opts, sel.drop_last()) + if sel[i] && i < opts.len() {
            seq![opts[i].label@]
        } else {
            seq![]
        }
    }
}

/// The answers given to question `idx`: the selected option labels, then
/// the trimmed "Other" text when "Other" is selected and the text is not
/// blank.
pub open spec fn answer_parts(q: ClarifyingQuestion, st: QuestionAnswerState, idx: int) -> Seq<Seq<char>> {
    let base = if idx < st.selected_options@.len() {
        selected_labels(q.options@, st.selected_options@[idx]@)
    } else {
        seq![]
    };
    let other_sel = idx < st.other_selected@.len() && st.other_selected@[idx];
    let other = if idx < st.other_text@.len() {
        trim(st.other_text@[idx]@)
    } else {
        seq![]
    };
    if other_sel && other.len() > 0 {
        base.push(other)
    } else {
        base
    }
}

/// The sentence for one question, or none when it has no answer.
pub open spec fn answer_line(question: Seq<char>, parts: Seq<Seq<char>>) -> Option<Seq<char>> {
    if parts.len() == 0 {
        None
    } else if parts.len() == 1 {
        Some("For \""@ + truncate_spec(question) + "\": "@ + parts[0])
    } else {
        Some(
            "For \""@ + truncate_spec(question) + "\": "@ + join(parts.drop_last(), ", "@)
                + " and "@ + parts.last(),
        )
    }
}

/// The sentences for the first `qs.len()` questions.
pub open spec fn answer_lines(qs: Seq<ClarifyingQuestion>, st: QuestionAnswerState) -> Seq<Seq<char>>
    decreases qs.len(),
{
    if qs.len() == 0 {
        seq![]
    } else {
        answer_lines(qs.drop_last(), st) + match answer_line(
            qs.last().question@,
            answer_parts(qs.last(), st, qs.len() - 1),
        ) {
            Some(l) => seq![l],
            None => seq![],
        }
    }
}

/// The answer message: the sentences separated by blank lines, or a
/// request to go ahead with the defaults when nothing was answered.
pub open spec fn format_answers_spec(qb: QuestionBlock, st: QuestionAnswerState) -> Seq<char> {
    let lines = answer_lines(qb.questions@, st);
    if lines.len() == 0 {
        "I'd like to proceed with your default recommendations."@
    } else {
        join(lines, "\n\n"@)
    }
}

fn selected_labels_of(opts: &Vec<QuestionOption>, sel: &Vec<bool>) -> (r: Vec<String>)
    ensures
        strs_view(r@) == selected_labels(opts@, sel@),
{
    let mut out: Vec<String> = Vec::new();
    let mut i: usize = 0;
    assert(sel@.take(0) =~= seq![]);
    while i < sel.len()
        invariant
            i <= sel@.len(),
            strs_view(out@) == selected_labels(opts@, sel@.take(i as int)),
        decreases sel@.len() - i,
    {
        assert(sel@.take(i + 1).drop_last() =~= sel@.take(i as int));
        if sel[i] && i < opts.len() {
            let l = opts[i].label.clone();
            let ghost before = out@;
            out.push(l);
            assert(strs_view(out@) =~= strs_view(before).push(opts@[i as int].label@));
        }
        assert(strs_view(out@) =~= selected_labels(opts@, sel@.take(i + 1)));
        i = i + 1;
    }
    assert(sel@.take(sel@.len() as int) =~= sel@);
    out
}

fn answer_parts_of(q: &ClarifyingQuestion, st: &QuestionAnswerState, idx: usize) -> (r: Vec<String>)
    ensures
        strs_view(r@) == answer_parts(*q, *st, idx as int),
{
    let mut parts = if idx < st.selected_options.len() {
        selected_labels_of(&q.options, &st.selected_options[idx])
    } else {
        let v: Vec<String> = Vec::new();
        assert(strs_view(v@) =~= seq![]);
        v
    };
    let other_sel = idx < st.other_selected.len() && st.other_selected[idx];
    let other = if idx < st.other_text.len() {
        trim_str(st.other_text[idx].as_str())
    } else {
        String::new()
    };
    if other_sel && other.as_str().unicode_len() > 0 {
        let ghost before = parts@;
        parts.push(other);
        assert(strs_view(parts@) =~= strs_view(before).push(other@));
    }
    parts
}

fn answer_line_of(question: &str, parts: Vec<String>) -> (r: Option<String>)
    requires
        truncatable(question@),
    ensures
        match r {
            Some(l) => answer_line(question@, strs_view(parts@)) == Some(l@),
            None => answer_line(question@, strs_view(parts@)) is None,
        },
{
    if parts.len() == 0 {
        return None;
    }
    let mut s = "For \"".to_string();
    push_str(&mut s, truncate_question(question));
    push_str(&mut s, "\": ");
    if parts.len() == 1 {
        push_str(&mut s, parts[0].as_str());
    } else {
        let mut head = parts;
        let last = head.pop().unwrap();
        let ghost hv = strs_view(head@);
        assert(hv =~= strs_view(parts@).drop_last());
        let joined = join_strings(head.as_slice(), ", ");
        push_str(&mut s, joined.as_str());
        push_str(&mut s, " and ");
        push_str(&mut s, last.as_str());
    }
    Some(s)
}

/// Format user answers as natural language for sending back to the AI.
pub fn format_answers_natural(questions: &QuestionBlock, state: &QuestionAnswerState) -> (r: String)
    requires
        forall|i: int| 0 <= i < questions.questions@.len() ==> truncatable(
            (#[trigger] questions.questions@[i]).question@,
        ),
    ensures
        r@ == format_answers_spec(*questions, *state),
{
    let qs = &questions.questions;
    let mut lines: Vec<String> = Vec::new();
    let mut i: usize = 0;
    assert(qs@.take(0) =~= seq![]);
    while i < qs.len()
        invariant
            i <= qs@.len(),
            forall|k: int| 0 <= k < qs@.len() ==> truncatable((#[trigger] qs@[k]).question@),
            strs_view(lines@) == answer_lines(qs@.take(i as int), *state),
        decreases qs@.len() - i,
    {
        assert(qs@.take(i + 1).drop_last() =~= qs@.take(i as int));
        assert(qs@.take(i + 1).last() == qs@[i as int]);
        let parts = answer_parts_of(&qs[i], state, i);
        let line = answer_line_of(qs[i].question.as_str(), parts);
        match line {
            Some(l) => {
                let ghost before = lines@;
                lines.push(l);
                assert(strs_view(lines@) =~= strs_view(before).push(l@));
            },
            None => {},
        }
        assert(strs_view(lines@) =~= answer_lines(qs@.take(i + 1), *state));
        i = i + 1;
    }
    assert(qs@.take(qs@.len() as int) =~= qs@);
    if lines.len() == 0 {
        "I'd like to proceed with your default recommendations.".to_string()
    } else {
        join_strings(lines.as_slice(), "\n\n")
    }
}

/// Generate message when user declines to answer questions.
pub fn format_declined_message() -> (r: String)
    ensures
        r@ == "I'd prefer to skip these questions and have you proceed with your best judgment."@,
{
    "I'd prefer to skip these questions and have you proceed with your best judgment.".to_string()
}


/// The total length of the first `k` pieces.
pub open spec fn pieces_len(xs: Seq<Seq<char>>, k: int) -> int
    decreases k,
{
    if k <= 0 {
        0
    } else {
        pieces_len(xs, k - 1) + xs[k - 1].len()
    }
}

proof fn lemma_join_places_pieces(xs: Seq<Seq<char>>, sep: Seq<char>)
    requires
        xs.len() >= 1,
    ensures
        join(xs, sep).len() == pieces_len(xs, xs.len() as int) + sep.len() * (xs.len() - 1),
        forall|k: int| 0 <= k < xs.len() ==> occurs_at(join(xs, sep), #[trigger] xs[k], pieces_len(xs, k) + sep.len() * k),
        forall|k: int| 1 <= k < xs.len() ==> occurs_at(join(xs, sep), sep, #[trigger] pieces_len(xs, k) + sep.len() * (k - 1)),
    decreases xs.len(),
{
    if xs.len() == 1 {
        assert(pieces_len(xs, 0) == 0);
        assert(pieces_len(xs, 1) == xs[0].len());
        assert(join(xs, sep) == xs[0]);
        assert(xs[0].subrange(0, xs[0].len() as int) =~= xs[0]);
    } else {
        let d = xs.drop_last();
        lemma_join_places_pieces(d, sep);
        assert forall|k: int| 0 <= k <= d.len() implies pieces_len(d, k) == pieces_len(xs, k) by {
            lemma_pieces_len_prefix_le(xs, k);
        }
        let j = join(d, sep);
        let whole = j + sep + xs.last();
        assert(join(xs, sep) == whole);
        lemma_pieces_len_prefix_le(xs, xs.len() - 1);
        assert(pieces_len(xs, xs.len() as int) == pieces_len(xs, xs.len() - 1) + xs[xs.len() - 1].len());
        assert(j.len() == pieces_len(xs, xs.len() - 1) + sep.len() * (xs.len() - 2));
        assert(sep.len() * (xs.len() - 1) == sep.len() * (xs.len() - 2) + sep.len()) by (nonlinear_arith);
        assert forall|k: int| 0 <= k < xs.len() implies occurs_at(whole, #[trigger] xs[k], pieces_len(xs, k) + sep.len() * k) by {
            if k < xs.len() - 1 {
                assert(d[k] == xs[k]);
                let p = pieces_len(xs, k) + sep.len() * k;
                assert(occurs_at(j, d[k], pieces_len(d, k) + sep.len() * k));
                assert(whole.subrange(p, p + xs[k].len()) =~= j.subrange(p, p + xs[k].len()));
            } else {
                assert(sep.len() * k == sep.len() * (xs.len() - 2) + sep.len()) by (nonlinear_arith)
                    requires k == xs.len() - 1;
                let p = pieces_len(xs, k) + sep.len() * k;
                assert(p == j.len() + sep.len());
                assert(whole.subrange(p, p + xs[k].len()) =~= xs.last());
            }
        }
        assert forall|k1: int| 1 <= k1 < xs.len() implies occurs_at(whole, sep, #[trigger] pieces_len(xs, k1) + sep.len() * (k1 - 1)) by {
            let k = k1 - 1;
            let p = pieces_len(xs, k + 1) + sep.len() * k;
            if k < xs.len() - 2 {
                assert(occurs_at(j, sep, pieces_len(d, k + 1) + sep.len() * k));
                assert(whole.subrange(p, p + sep.len()) =~= j.subrange(p, p + sep.len()));
            } else {
                assert(sep.len() * k == sep.len() * (xs.len() - 2)) by (nonlinear_arith)
                    requires k == xs.len() - 2;
                assert(p == j.len());
                assert(whole.subrange(p, p + sep.len()) =~= sep);
            }
        }
    }
}

/// The opening of an answer sentence, up to the first answer.
pub open spec fn answer_opening(question: Seq<char>) -> Seq<char> {
    "For \""@ + truncate_spec(question) + "\": "@
}

/// Where piece `k` of `n` answers starts after the opening: the pieces
/// before it, each followed by ", ", except that " and " stands before the
/// last one.
pub open spec fn answer_offset(parts: Seq<Seq<char>>, k: int) -> int {
    pieces_len(parts, k) + 2 * k + if parts.len() >= 2 && k == parts.len() - 1 {
        3int
    } else {
        0
    }
}

proof fn lemma_occurs_shift(a: Seq<char>, b: Seq<char>, c: Seq<char>, x: Seq<char>, p: int)
    requires
        occurs_at(b, x, p),
    ensures
        occurs_at(a + b + c, x, a.len() + p),
{
    assert((a + b + c).subrange(a.len() + p, a.len() + p + x.len()) =~= b.subrange(p, p + x.len()));
}

/// An answer sentence names every answer, in order: after the opening
/// `For "<question>": ` come the answers one after another, separated by
/// ", ", with " and " (instead) before the last, and nothing else.
pub proof fn lemma_answer_line_names_every_answer(question: Seq<char>, parts: Seq<Seq<char>>)
    requires
        parts.len() >= 1,
    ensures
        answer_line(question, parts) matches Some(l) && {
            let o = answer_opening(question).len() as int;
            &&& l.take(o) == answer_opening(question)
            &&& l.len() == o + answer_offset(parts, parts.len() - 1) + parts.last().len()
            &&& forall|k: int| 0 <= k < parts.len() ==> occurs_at(l, #[trigger] parts[k], o + answer_offset(parts, k))
            &&& forall|k: int| 0 <= k < parts.len() - 2 ==> occurs_at(l, ", "@, o + #[trigger] answer_offset(parts, k) + parts[k].len())
            &&& parts.len() >= 2 ==> occurs_at(l, " and "@, o + answer_offset(parts, parts.len() - 2) + parts[parts.len() - 2].len())
        },
{
    reveal_strlit(", ");
    reveal_strlit(" and ");
    let op = answer_opening(question);
    let o = op.len() as int;
    let n = parts.len() as int;
    if n == 1 {
        let l = op + parts[0];
        assert(answer_line(question, parts) == Some(l));
        assert(pieces_len(parts, 0) == 0);
        assert(l.take(o) =~= op);
        assert(l.subrange(o, o + parts[0].len()) =~= parts[0]);
    } else {
        let d = parts.drop_last();
        lemma_join_places_pieces(d, ", "@);
        let j = join(d, ", "@);
        let tail = " and "@ + parts.last();
        let l = op + j + tail;
        assert(answer_line(question, parts) == Some(op + j + " and "@ + parts.last()));
        assert(op + j + " and "@ + parts.last() =~= l);
        assert(l.take(o) =~= op);
        lemma_pieces_len_prefix_le(parts, n - 1);
        assert(pieces_len(parts, n) == pieces_len(parts, n - 1) + parts[n - 1].len());
        assert forall|k: int| 0 <= k < n implies occurs_at(l, #[trigger] parts[k], o + answer_offset(parts, k)) by {
            if k < n - 1 {
                lemma_pieces_len_prefix_le(parts, k);
                assert(d[k] == parts[k]);
                lemma_occurs_shift(op, j, tail, parts[k], pieces_len(d, k) + 2 * k);
            } else {
                assert(occurs_at(tail, parts.last(), 5)) by {
                    assert(tail.subrange(5, 5 + parts.last().len() as int) =~= parts.last());
                }
                lemma_occurs_shift(op + j, tail, seq![], parts.last(), 5);
                assert(op + j + tail + seq![] =~= l);
            }
        }
        assert forall|k: int| 0 <= k < n - 2 implies occurs_at(l, ", "@, o + #[trigger] answer_offset(parts, k) + parts[k].len()) by {
            lemma_pieces_len_prefix_le(parts, k + 1);
            assert(pieces_len(parts, k + 1) == pieces_len(parts, k) + parts[k].len());
            assert(occurs_at(j, ", "@, pieces_len(d, k + 1) + 2 * (k + 1 - 1)));
            lemma_occurs_shift(op, j, tail, ", "@, pieces_len(d, k + 1) + 2 * k);
        }
        lemma_pieces_len_prefix_le(parts, n - 2);
        assert(pieces_len(parts, n - 1) == pieces_len(parts, n - 2) + parts[n - 2].len());
        assert(occurs_at(tail, " and "@, 0)) by {
            assert(tail.subrange(0, 5) =~= " and "@);
        }
        lemma_occurs_shift(op + j, tail, seq![], " and "@, 0);
        assert(op + j + tail + seq![] =~= l);
    }
}

proof fn lemma_pieces_len_prefix_le(xs: Seq<Seq<char>>, k: int)
    requires
        0 <= k < xs.len(),
    ensures
        pieces_len(xs.drop_last(), k) == pieces_len(xs, k),
    decreases k,
{
    if k > 0 {
        lemma_pieces_len_prefix_le(xs, k - 1);
        assert(xs.drop_last()[k - 1] == xs[k - 1]);
    }
}


/// The label of a selected option comes right after the labels selected
/// before it: selected labels keep the options' order, and none is lost.
pub proof fn lemma_selected_label_in_place(opts: Seq<QuestionOption>, sel: Seq<bool>, j: int)
    requires
        0 <= j < sel.len(),
        j < opts.len(),
        sel[j],
    ensures
        selected_labels(opts, sel.take(j)).len() < selected_labels(opts, sel).len(),
        selected_labels(opts, sel)[selected_labels(opts, sel.take(j)).len() as int] == opts[j].label@,
    decreases sel.len(),
{
    let d = sel.drop_last();
    if j == sel.len() - 1 {
        assert(sel.take(j) =~= d);
    } else {
        assert(d[j] == sel[j]);
        assert(d.take(j) =~= sel.take(j));
        lemma_selected_label_in_place(opts, d, j);
    }
}

/// Every selected option of a question is named in its answer sentence:
/// the sentence exists and contains the option's label.
pub proof fn lemma_answer_names_selected_option(q: ClarifyingQuestion, st: QuestionAnswerState, idx: int, j: int)
    requires
        0 <= idx < st.selected_options@.len(),
        0 <= j < st.selected_options@[idx]@.len(),
        j < q.options@.len(),
        st.selected_options@[idx]@[j],
    ensures
        answer_line(q.question@, answer_parts(q, st, idx)) matches Some(l) && contains_seq(l, q.options@[j].label@),
{
    let sel = st.selected_options@[idx]@;
    let base = selected_labels(q.options@, sel);
    let parts = answer_parts(q, st, idx);
    lemma_selected_label_in_place(q.options@, sel, j);
    let k = selected_labels(q.options@, sel.take(j)).len() as int;
    assert(parts[k] == base[k]);
    lemma_answer_line_names_every_answer(q.question@, parts);
}

/// Which question blocks are shown: a block is accepted exactly when it
/// has one to four questions and every question has two to four options
/// (four included), a header of at most 12 bytes, and option labels of one
/// to five words each.
pub proof fn lemma_block_acceptance(b: QuestionBlock)
    ensures
        block_ok(b) <==> {
            &&& 1 <= b.questions@.len() <= 4
            &&& forall|i: int| 0 <= i < b.questions@.len() ==> {
                let q = #[trigger] b.questions@[i];
                &&& 2 <= q.options@.len()
                &&& q.options@.len() <= 4
                &&& encode_utf8(q.header@).len() <= 12
                &&& forall|j: int| 0 <= j < q.options@.len() ==> {
                    let n = words((#[trigger] q.options@[j]).label@).len();
                    1 <= n && n <= 5
                }
            }
        },
{
}

/// A question of at most 50 bytes is quoted whole; a longer one is cut to
/// the start of it whose encoding is its first 47 bytes.
pub proof fn lemma_truncate_question(q: Seq<char>)
    requires
        truncatable(q),
    ensures
        utf8_len(q) <= 50 ==> truncate_spec(q) == q,
        utf8_len(q) > 50 ==> encode_utf8(truncate_spec(q)) == encode_utf8(q).subrange(0, 47)
            && truncate_spec(q).len() <= q.len() && truncate_spec(q) == q.take(truncate_spec(q).len() as int),
{
    broadcast use vstd::utf8::encode_utf8_valid_utf8, vstd::utf8::decode_utf8_encode_utf8,
        vstd::utf8::encode_utf8_decode_utf8;

    if utf8_len(q) > 50 {
        let b = encode_utf8(q);
        vstd::utf8::valid_utf8_split(b, 47);
        vstd::utf8::decode_utf8_split(b, 47);
        let t = truncate_spec(q);
        let rest = decode_utf8(b.subrange(47, b.len() as int));
        assert(q == t + rest);
        assert(q.take(t.len() as int) =~= t);
    }
}

proof fn lemma_answer_lines_has(qs: Seq<ClarifyingQuestion>, st: QuestionAnswerState, i: int)
    requires
        0 <= i < qs.len(),
        answer_parts(qs[i], st, i).len() > 0,
    ensures
        answer_lines(qs, st).contains(answer_line(qs[i].question@, answer_parts(qs[i], st, i)).unwrap()),
    decreases qs.len(),
{
    let a = answer_lines(qs.drop_last(), st);
    let x = answer_line(qs[i].question@, answer_parts(qs[i], st, i)).unwrap();
    if i == qs.len() - 1 {
        assert(answer_lines(qs, st) == a + seq![x]);
        assert((a + seq![x])[a.len() as int] == x);
    } else {
        assert(qs.drop_last()[i] == qs[i]);
        lemma_answer_lines_has(qs.drop_last(), st, i);
        let k = choose|k: int| 0 <= k < a.len() && a[k] == x;
        let b = answer_lines(qs, st);
        assert(b == a + (b.subrange(a.len() as int, b.len() as int)));
        assert(b[k] == x);
    }
}

proof fn lemma_answer_lines_empty(qs: Seq<ClarifyingQuestion>, st: QuestionAnswerState)
    requires
        forall|i: int| 0 <= i < qs.len() ==> (#[trigger] answer_parts(qs[i], st, i)).len() == 0,
    ensures
        answer_lines(qs, st).len() == 0,
    decreases qs.len(),
{
    if qs.len() > 0 {
        assert forall|i: int| 0 <= i < qs.drop_last().len() implies (#[trigger] answer_parts(
            qs.drop_last()[i],
            st,
            i,
        )).len() == 0 by {
            assert(qs.drop_last()[i] == qs[i]);
        }
        lemma_answer_lines_empty(qs.drop_last(), st);
        assert(answer_parts(qs[qs.len() - 1], st, qs.len() - 1).len() == 0);
    }
}

/// The answer message holds the sentence of every answered question (a
/// question with a selected option, or with "Other" selected and text
/// typed for it); when no question is answered it asks to go ahead with
/// the defaults.
pub proof fn lemma_message_holds_every_answer(qb: QuestionBlock, st: QuestionAnswerState, i: int)
    ensures
        0 <= i < qb.questions@.len() && answer_parts(qb.questions@[i], st, i).len() > 0 ==> contains_seq(
            format_answers_spec(qb, st),
            answer_line(qb.questions@[i].question@, answer_parts(qb.questions@[i], st, i)).unwrap(),
        ),
        (forall|k: int| 0 <= k < qb.questions@.len() ==> (#[trigger] answer_parts(qb.questions@[k], st, k)).len()
            == 0) ==> format_answers_spec(qb, st) == "I'd like to proceed with your default recommendations."@,
{
    let qs = qb.questions@;
    if 0 <= i < qs.len() && answer_parts(qs[i], st, i).len() > 0 {
        lemma_answer_lines_has(qs, st, i);
        let ls = answer_lines(qs, st);
        let x = answer_line(qs[i].question@, answer_parts(qs[i], st, i)).unwrap();
        let k = choose|k: int| 0 <= k < ls.len() && ls[k] == x;
        lemma_join_places_pieces(ls, "\n\n"@);
        assert(occurs_at(join(ls, "\n\n"@), ls[k], pieces_len(ls, k) + 2 * k)) by {
            reveal_strlit("\n\n");
        }
    }
    if forall|k: int| 0 <= k < qs.len() ==> (#[trigger] answer_parts(qs[k], st, k)).len() == 0 {
        lemma_answer_lines_empty(qs, st);
    }
}

/// "Other" counts as an answer: when it is selected and its text is not
/// blank, the trimmed text is the last answer of the question, after the
/// selected option labels; otherwise the answers are the selected labels.
pub proof fn lemma_other_answer(q: ClarifyingQuestion, st: QuestionAnswerState, idx: int)
    requires
        0 <= idx < st.other_selected@.len(),
        idx < st.other_text@.len(),
    ensures
        st.other_selected@[idx] && trim(st.other_text@[idx]@).len() > 0 ==> answer_parts(q, st, idx).last()
            == trim(st.other_text@[idx]@) && answer_parts(q, st, idx).drop_last() == (if idx
            < st.selected_options@.len() {
            selected_labels(q.options@, st.selected_options@[idx]@)
        } else {
            seq![]
        }),
        !(st.other_selected@[idx] && trim(st.other_text@[idx]@).len() > 0) ==> answer_parts(q, st, idx) == (if idx
            < st.selected_options@.len() {
            selected_labels(q.options@, st.selected_options@[idx]@)
        } else {
            seq![]
        }),
{
    let base = if idx < st.selected_options@.len() {
        selected_labels(q.options@, st.selected_options@[idx]@)
    } else {
        seq![]
    };
    assert(base.push(trim(st.other_text@[idx]@)).drop_last() =~= base);
}
} // verus!

verus! {

// ---------------------------------------------------------------------------
// The question block of a response
// ---------------------------------------------------------------------------

pub open spec fn open_tag() -> Seq<char> {
    "<clarifying_questions>"@
}

pub open spec fn close_tag() -> Seq<char> {
    "</clarifying_questions>"@
}

/// The first `<clarifying_questions>...</clarifying_questions>` block of a
/// response: its trimmed inner text, and the response with the block cut
/// out, trimmed. `None` when there is no complete block.
pub open spec fn extract_spec(s: Seq<char>) -> Option<(Seq<char>, Seq<char>)> {
    match find_spec(s, open_tag(), 0) {
        None => None,
        Some(o) => {
            let a = o + open_tag().len();
            match find_spec(s, close_tag(), a) {
                None => None,
                Some(c) => Some(
                    (
                        trim(s.subrange(a, c)),
                        trim(s.subrange(0, o) + s.subrange(c + close_tag().len(), s.len() as int)),
                    ),
                ),
            }
        },
    }
}

/// A question block found in a response.
pub struct ExtractedBlock {
    /// The block's inner text (the JSON of a [`QuestionBlock`]), trimmed
    pub json: String,
    /// The response without the block, trimmed
    pub remainder: String,
}

/// Finds the clarifying-questions block of a response.
pub fn extract_question_block(response: &str) -> (r: Option<ExtractedBlock>)
    ensures
        match r {
            Some(b) => extract_spec(response@) == Some((b.json@, b.remainder@)),
            None => extract_spec(response@) is None,
        },
{
    let s = to_chars(response);
    let open = to_chars("<clarifying_questions>");
    let close = to_chars("</clarifying_questions>");
    let o = match find_from(s.as_slice(), open.as_slice(), 0) {
        Some(o) => o,
        None => return None,
    };
    assert(crate::text::occurs_at(s@, open@, o as int));
    let slen = s.len();
    assert(o + open@.len() <= slen);
    let a = o + open.len();
    let c = match find_from(s.as_slice(), close.as_slice(), a) {
        Some(c) => c,
        None => return None,
    };
    assert(crate::text::occurs_at(s@, close@, c as int));
    assert(c + close@.len() <= slen);
    let e = c + close.len();
    let n = s.len();
    let x = skip_ws_forward(s.as_slice(), a, c);
    let y = skip_ws_backward(s.as_slice(), x, c);
    let json = from_char_range(s.as_slice(), x, y);
    let mut rest: Vec<char> = Vec::new();
    let mut i: usize = 0;
    while i < o
        invariant
            o <= n == s@.len(),
            i <= o,
            rest@ == s@.subrange(0, i as int),
        decreases o - i,
    {
        rest.push(s[i]);
        assert(s@.subrange(0, i as int).push(s@[i as int]) =~= s@.subrange(0, i + 1));
        i = i + 1;
    }
    let mut j: usize = e;
    while j < n
        invariant
            o <= e <= n == s@.len(),
            e <= j <= n,
            rest@ == s@.subrange(0, o as int) + s@.subrange(e as int, j as int),
        decreases n - j,
    {
        rest.push(s[j]);
        assert((s@.subrange(0, o as int) + s@.subrange(e as int, j as int)).push(s@[j as int])
            =~= s@.subrange(0, o as int) + s@.subrange(e as int, j + 1));
        j = j + 1;
    }
    let rest_trimmed = crate::text::trim_chars(rest.as_slice());
    let remainder = from_char_range(rest_trimmed.as_slice(), 0, rest_trimmed.len());
    assert(rest_trimmed@.subrange(0, rest_trimmed@.len() as int) =~= rest_trimmed@);
    Some(ExtractedBlock { json, remainder })
}

/// Result of parsing an AI response.
pub struct ParsedResponse {
    /// The clean content with question block removed
    pub content: String,
    /// Extracted questions, if any
    pub questions: Option<QuestionBlock>,
}

/// Completes the parse of a response once the block's JSON has been
/// decoded: a decoded block that passes validation is returned with the
/// response's remaining text; otherwise the response is returned as is.
pub fn finish_parse(
    response: &str,
    extracted: Option<ExtractedBlock>,
    decoded: Option<QuestionBlock>,
) -> (r: ParsedResponse)
    ensures
        match (extracted, decoded) {
            (Some(b), Some(q)) => if block_ok(q) {
                r.content@ == b.remainder@ && r.questions == Some(q)
            } else {
                r.content@ == response@ && r.questions is None
            },
            _ => r.content@ == response@ && r.questions is None,
        },
{
    match (extracted, decoded) {
        (Some(b), Some(q)) => {
            if validate_question_block(&q) {
                ParsedResponse { content: b.remainder, questions: Some(q) }
            } else {
                ParsedResponse { content: response.to_string(), questions: None }
            }
        },
        _ => ParsedResponse { content: response.to_string(), questions: None },
    }
}

} // verus!
