//! The output comparator: two texts match when they are equal after each line
//! loses its trailing whitespace and the whole text loses its leading and
//! trailing whitespace.
use crate::text::{chars_of, is_whitespace, is_ws, string_of};
use vstd::prelude::*;

verus! {

/// `s` without its trailing whitespace.
pub open spec fn trim_end(s: Seq<char>) -> Seq<char>
    decreases s.len(),
{
    if s.len() > 0 && is_ws(s.last()) {
        trim_end(s.drop_last())
    } else {
        s
    }
}

/// `s` without its leading whitespace.
pub open spec fn trim_start(s: Seq<char>) -> Seq<char>
    decreases s.len(),
{
    if s.len() > 0 && is_ws(s[0]) {
        trim_start(s.drop_first())
    } else {
        s
    }
}

/// `s` without leading and trailing whitespace.
pub open spec fn trim(s: Seq<char>) -> Seq<char> {
    trim_start(trim_end(s))
}

/// The pieces of `s` between newline characters; there is always at least one.
pub open spec fn lines_of(s: Seq<char>) -> Seq<Seq<char>>
    decreases s.len(),
{
    if s.len() == 0 {
        seq![Seq::empty()]
    } else {
        let prev = lines_of(s.drop_last());
        if s.last() == '\n' {
            prev.push(Seq::empty())
        } else {
            prev.update(prev.len() - 1, prev.last().push(s.last()))
        }
    }
}

/// The lines `ls` joined with a single newline between neighbours.
pub open spec fn join_lines(ls: Seq<Seq<char>>) -> Seq<char>
    decreases ls.len(),
{
    if ls.len() == 0 {
        Seq::empty()
    } else if ls.len() == 1 {
        ls[0]
    } else {
        join_lines(ls.drop_last()) + seq!['\n'] + ls.last()
    }
}

/// What `join_lines(ls)` holds before its last line.
pub open spec fn join_head(ls: Seq<Seq<char>>) -> Seq<char> {
    if ls.len() <= 1 {
        Seq::empty()
    } else {
        join_lines(ls.drop_last()) + seq!['\n']
    }
}

/// Each of the lines `ls` without its trailing whitespace.
pub open spec fn trim_ends(ls: Seq<Seq<char>>) -> Seq<Seq<char>> {
    ls.map_values(|l: Seq<char>| trim_end(l))
}

/// Each line of `s` without its trailing whitespace, joined again by newlines.
pub open spec fn strip_lines(s: Seq<char>) -> Seq<char> {
    join_lines(trim_ends(lines_of(s)))
}

/// The canonical form that the comparator compares.
pub open spec fn normalize(s: Seq<char>) -> Seq<char> {
    trim(strip_lines(s))
}

/// Whether an actual output is accepted for an expected one.
pub open spec fn outputs_match(expected: Seq<char>, actual: Seq<char>) -> bool {
    normalize(expected) == normalize(actual)
}

/// The characters of `s` that are not whitespace, in order.
pub open spec fn non_ws(s: Seq<char>) -> Seq<char> {
    s.filter(|c: char| !is_ws(c))
}

pub open spec fn all_ws(s: Seq<char>) -> bool {
    forall|i: int| 0 <= i < s.len() ==> is_ws(#[trigger] s[i])
}

proof fn lemma_lines_nonempty(s: Seq<char>)
    ensures
        lines_of(s).len() >= 1,
    decreases s.len(),
{
    if s.len() > 0 {
        lemma_lines_nonempty(s.drop_last());
    }
}

proof fn lemma_join_split(ls: Seq<Seq<char>>)
    requires
        ls.len() >= 1,
    ensures
        join_lines(ls) == join_head(ls) + ls.last(),
{
    if ls.len() == 1 {
        assert(join_head(ls) + ls.last() =~= ls[0]);
    }
}

/// `trim_end` of a stretch ending in whitespace is `trim_end` of the stretch without it.
proof fn lemma_trim_end_step(v: Seq<char>, start: int, k: int)
    requires
        0 <= start < k <= v.len(),
        is_ws(v[k - 1]),
    ensures
        trim_end(v.subrange(start, k)) == trim_end(v.subrange(start, k - 1)),
{
    assert(v.subrange(start, k).drop_last() =~= v.subrange(start, k - 1));
}

/// The end, after `start`, of `v[start..end]` once trailing whitespace is dropped.
fn trimmed_end(v: &Vec<char>, start: usize, end: usize) -> (k: usize)
    requires
        start <= end <= v.len(),
    ensures
        start <= k <= end,
        trim_end(v@.subrange(start as int, end as int)) == v@.subrange(start as int, k as int),
{
    let mut k: usize = end;
    while k > start && is_whitespace(v[k - 1])
        invariant
            start <= k <= end <= v.len(),
            trim_end(v@.subrange(start as int, end as int)) == trim_end(
                v@.subrange(start as int, k as int),
            ),
        decreases k,
    {
        proof {
            lemma_trim_end_step(v@, start as int, k as int);
        }
        k = k - 1;
    }
    k
}

/// The first position in `v[..end]` that holds no whitespace, or `end`.
fn trimmed_start(v: &Vec<char>, end: usize) -> (a: usize)
    requires
        end <= v.len(),
    ensures
        a <= end,
        trim_start(v@.subrange(0, end as int)) == v@.subrange(a as int, end as int),
{
    let mut a: usize = 0;
    while a < end && is_whitespace(v[a])
        invariant
            a <= end <= v.len(),
            trim_start(v@.subrange(0, end as int)) == trim_start(v@.subrange(a as int, end as int)),
        decreases end - a,
    {
        assert(v@.subrange(a as int, end as int).drop_first() =~= v@.subrange(
            a as int + 1,
            end as int,
        ));
        a = a + 1;
    }
    a
}

/// Appends `v[from..to]` to `out`.
fn append_range(out: &mut Vec<char>, v: &Vec<char>, from: usize, to: usize)
    requires
        from <= to <= v.len(),
    ensures
        final(out)@ == old(out)@ + v@.subrange(from as int, to as int),
{
    let mut i: usize = from;
    while i < to
        invariant
            from <= i <= to <= v.len(),
            out@ == old(out)@ + v@.subrange(from as int, i as int),
        decreases to - i,
    {
        out.push(v[i]);
        assert(v@.subrange(from as int, i + 1) =~= v@.subrange(from as int, i as int).push(v@[i as int]));
        i = i + 1;
    }
}

/// One step of `lines_of` over a prefix: what changes when the next character comes.
proof fn lemma_lines_prefix(s: Seq<char>, i: int)
    requires
        0 <= i < s.len(),
    ensures
        lines_of(s.subrange(0, i + 1)) == if s[i] == '\n' {
            lines_of(s.subrange(0, i)).push(Seq::empty())
        } else {
            lines_of(s.subrange(0, i)).update(
                lines_of(s.subrange(0, i)).len() - 1,
                lines_of(s.subrange(0, i)).last().push(s[i]),
            )
        },
{
    assert(s.subrange(0, i + 1).drop_last() =~= s.subrange(0, i));
}

/// The text of `s` with each line stripped of trailing whitespace, joined by newlines.
fn strip_line_ends(v: &Vec<char>) -> (r: Vec<char>)
    ensures
        r@ == strip_lines(v@),
{
    let mut out: Vec<char> = Vec::new();
    let mut j: usize = 0;
    let mut i: usize = 0;
    while i < v.len()
        invariant
            j <= i <= v.len(),
            lines_of(v@.subrange(0, i as int)).len() >= 1,
            lines_of(v@.subrange(0, i as int)).last() == v@.subrange(j as int, i as int),
            out@ == join_head(trim_ends(lines_of(v@.subrange(0, i as int)))),
        decreases v.len() - i,
    {
        let ghost ls = lines_of(v@.subrange(0, i as int));
        let ghost ms = trim_ends(ls);
        proof {
            lemma_lines_prefix(v@, i as int);
            lemma_join_split(ms);
        }
        if v[i] == '\n' {
            let k = trimmed_end(v, j, i);
            let ghost out0 = out@;
            append_range(&mut out, v, j, k);
            out.push('\n');
            proof {
                assert(out@ == out0 + v@.subrange(j as int, k as int) + seq!['\n']);
                let ms2 = trim_ends(lines_of(v@.subrange(0, i + 1)));
                assert(ms2.drop_last() =~= ms);
                assert(lines_of(v@.subrange(0, i + 1)).last() == Seq::<char>::empty());
                assert(ms2.last() == trim_end(Seq::<char>::empty()));
                assert(ms.last() == v@.subrange(j as int, k as int));
                assert(out@ =~= join_head(ms2));
            }
            j = i + 1;
            assert(lines_of(v@.subrange(0, i + 1)).last() =~= v@.subrange(j as int, i + 1));
        } else {
            proof {
                let ms2 = trim_ends(lines_of(v@.subrange(0, i + 1)));
                assert(ms2.drop_last() =~= ms.drop_last());
                assert(v@.subrange(j as int, i + 1) =~= v@.subrange(j as int, i as int).push(
                    v@[i as int],
                ));
            }
        }
        i = i + 1;
    }
    let ghost ms = trim_ends(lines_of(v@.subrange(0, i as int)));
    proof {
        lemma_join_split(ms);
        assert(v@.subrange(0, i as int) =~= v@);
    }
    let k = trimmed_end(v, j, i);
    append_range(&mut out, v, j, k);
    out
}

/// The characters of the canonical form of `s`.
pub fn normalized_chars(s: &str) -> (r: Vec<char>)
    ensures
        r@ == normalize(s@),
{
    let v = chars_of(s);
    let stripped = strip_line_ends(&v);
    let b = trimmed_end(&stripped, 0, stripped.len());
    assert(stripped@.subrange(0, stripped@.len() as int) =~= stripped@);
    let a = trimmed_start(&stripped, b);
    let mut r: Vec<char> = Vec::new();
    append_range(&mut r, &stripped, a, b);
    assert(r@ =~= stripped@.subrange(a as int, b as int));
    r
}

/// The canonical form of `output`: lines split at newlines, trailing whitespace
/// removed from each line, lines joined by single newlines, then leading and
/// trailing whitespace removed from the whole.
pub fn normalize_output(output: &str) -> (r: String)
    ensures
        r@ == normalize(output@),
{
    let v = normalized_chars(output);
    string_of(&v)
}

/// Whether `actual` is accepted as `expected`: their canonical forms are equal.
pub fn compare_output(expected: &str, actual: &str) -> (r: bool)
    ensures
        r == outputs_match(expected@, actual@),
{
    let e = normalized_chars(expected);
    let a = normalized_chars(actual);
    if e.len() != a.len() {
        assert(e@.len() != a@.len());
        return false;
    }
    let mut i: usize = 0;
    while i < e.len()
        invariant
            e@ == normalize(expected@),
            a@ == normalize(actual@),
            e.len() == a.len(),
            i <= e.len(),
            forall|j: int| 0 <= j < i ==> e@[j] == a@[j],
        decreases e.len() - i,
    {
        if e[i] != a[i] {
            assert(e@[i as int] != a@[i as int]);
            return false;
        }
        i = i + 1;
    }
    assert(e@ =~= a@);
    true
}


proof fn lemma_trim_append_ws_char(x: Seq<char>, c: char)
    requires
        is_ws(c),
    ensures
        trim(x.push(c)) == trim(x),
{
    assert(x.push(c).drop_last() =~= x);
}

/// Appending one whitespace character leaves the canonical form unchanged.
proof fn lemma_append_ws_char(s: Seq<char>, c: char)
    requires
        is_ws(c),
    ensures
        normalize(s.push(c)) == normalize(s),
{
    let t = s.push(c);
    assert(t.drop_last() =~= s);
    lemma_lines_nonempty(s);
    let ls = lines_of(s);
    let ms = trim_ends(ls);
    if c == '\n' {
        let ms2 = trim_ends(lines_of(t));
        assert(ms2.drop_last() =~= ms);
        assert(ms2.last() == trim_end(Seq::<char>::empty()));
        assert(strip_lines(t) =~= strip_lines(s).push('\n'));
        lemma_trim_append_ws_char(strip_lines(s), '\n');
    } else {
        let last = ls.last();
        assert(last.push(c).drop_last() =~= last);
        assert(trim_end(last.push(c)) == trim_end(last));
        assert(trim_ends(lines_of(t)) =~= ms);
    }
}

/// Appending whitespace leaves the canonical form unchanged.
proof fn lemma_append_ws(s: Seq<char>, w: Seq<char>)
    requires
        all_ws(w),
    ensures
        normalize(s + w) == normalize(s),
    decreases w.len(),
{
    if w.len() > 0 {
        let w0 = w.drop_last();
        assert(all_ws(w0)) by {
            assert forall|i: int| 0 <= i < w0.len() implies is_ws(#[trigger] w0[i]) by {
                assert(w0[i] == w[i]);
            }
        }
        lemma_append_ws(s, w0);
        assert(s + w =~= (s + w0).push(w.last()));
        assert(is_ws(w[w.len() - 1]));
        lemma_append_ws_char(s + w0, w.last());
    } else {
        assert(s + w =~= s);
    }
}

/// The lines of a text with one more character in front.
proof fn lemma_lines_prepend(c: char, t: Seq<char>)
    ensures
        lines_of(seq![c] + t) == if c == '\n' {
            seq![Seq::<char>::empty()] + lines_of(t)
        } else {
            lines_of(t).update(0, seq![c] + lines_of(t)[0])
        },
    decreases t.len(),
{
    let e = Seq::<char>::empty();
    if t.len() == 0 {
        assert(t =~= e);
        assert(seq![c] + t =~= seq![c]);
        assert(seq![c].drop_last() =~= e);
        assert(lines_of(e) == seq![e]);
        assert(seq![c].last() == c);
        if c == '\n' {
            assert(lines_of(seq![c]) =~= seq![e] + lines_of(t));
        } else {
            assert(e.push(c) =~= seq![c] + e);
            assert(lines_of(seq![c]) =~= lines_of(t).update(0, seq![c] + lines_of(t)[0]));
        }
    } else {
        let t0 = t.drop_last();
        let d = t.last();
        lemma_lines_prepend(c, t0);
        lemma_lines_nonempty(t0);
        assert((seq![c] + t).drop_last() =~= seq![c] + t0);
        assert((seq![c] + t).last() == d);
        let p = lines_of(seq![c] + t0);
        let q = lines_of(t0);
        if d == '\n' {
            if c == '\n' {
                assert(lines_of(seq![c] + t) =~= seq![e] + lines_of(t));
            } else {
                assert(lines_of(seq![c] + t) =~= lines_of(t).update(0, seq![c] + lines_of(t)[0]));
            }
        } else {
            if c == '\n' {
                assert(lines_of(seq![c] + t) =~= seq![e] + lines_of(t));
            } else {
                if q.len() == 1 {
                    assert((seq![c] + q[0]).push(d) =~= seq![c] + q[0].push(d));
                }
                assert(lines_of(seq![c] + t) =~= lines_of(t).update(0, seq![c] + lines_of(t)[0]));
            }
        }
    }
}

proof fn lemma_join_prepend_empty(ms: Seq<Seq<char>>)
    requires
        ms.len() >= 1,
    ensures
        join_lines(seq![Seq::<char>::empty()] + ms) == seq!['\n'] + join_lines(ms),
    decreases ms.len(),
{
    let e = Seq::<char>::empty();
    let all = seq![e] + ms;
    if ms.len() == 1 {
        assert(all.drop_last() =~= seq![e]);
        assert(join_lines(seq![e]) == e);
        assert(all.last() == ms[0]);
        assert(join_lines(all) =~= seq!['\n'] + join_lines(ms));
    } else {
        assert(all.drop_last() =~= seq![e] + ms.drop_last());
        lemma_join_prepend_empty(ms.drop_last());
        assert(join_lines(all) =~= seq!['\n'] + join_lines(ms));
    }
}

proof fn lemma_join_prepend_char(ms: Seq<Seq<char>>, c: char)
    requires
        ms.len() >= 1,
    ensures
        join_lines(ms.update(0, seq![c] + ms[0])) == seq![c] + join_lines(ms),
    decreases ms.len(),
{
    let up = ms.update(0, seq![c] + ms[0]);
    if ms.len() == 1 {
    } else {
        assert(up.drop_last() =~= ms.drop_last().update(0, seq![c] + ms.drop_last()[0]));
        lemma_join_prepend_char(ms.drop_last(), c);
        assert(join_lines(up) =~= seq![c] + join_lines(ms));
    }
}

proof fn lemma_trim_end_prepend(c: char, x: Seq<char>)
    requires
        is_ws(c),
    ensures
        trim_end(seq![c] + x) == if trim_end(x).len() == 0 {
            Seq::<char>::empty()
        } else {
            seq![c] + trim_end(x)
        },
    decreases x.len(),
{
    if x.len() == 0 {
        assert(x =~= Seq::<char>::empty());
        assert(seq![c] + x =~= seq![c]);
        assert(seq![c].drop_last() =~= Seq::<char>::empty());
    } else {
        assert((seq![c] + x).drop_last() =~= seq![c] + x.drop_last());
        assert((seq![c] + x).last() == x.last());
        if is_ws(x.last()) {
            lemma_trim_end_prepend(c, x.drop_last());
        }
    }
}

proof fn lemma_trim_prepend(c: char, y: Seq<char>)
    requires
        is_ws(c),
    ensures
        trim(seq![c] + y) == trim(y),
{
    lemma_trim_end_prepend(c, y);
    if trim_end(y).len() != 0 {
        assert((seq![c] + trim_end(y)).drop_first() =~= trim_end(y));
    }
}

/// Putting one whitespace character in front leaves the canonical form unchanged.
proof fn lemma_prepend_ws_char(c: char, t: Seq<char>)
    requires
        is_ws(c),
    ensures
        normalize(seq![c] + t) == normalize(t),
{
    let e = Seq::<char>::empty();
    lemma_lines_prepend(c, t);
    lemma_lines_nonempty(t);
    let q = lines_of(t);
    let mq = trim_ends(q);
    if c == '\n' {
        assert(trim_ends(lines_of(seq![c] + t)) =~= seq![e] + mq);
        lemma_join_prepend_empty(mq);
        lemma_trim_prepend('\n', strip_lines(t));
    } else {
        lemma_trim_end_prepend(c, q[0]);
        if trim_end(q[0]).len() == 0 {
            assert(trim_end(q[0]) =~= e);
            assert(trim_ends(lines_of(seq![c] + t)) =~= mq);
        } else {
            assert(trim_ends(lines_of(seq![c] + t)) =~= mq.update(0, seq![c] + mq[0]));
            lemma_join_prepend_char(mq, c);
            lemma_trim_prepend(c, strip_lines(t));
        }
    }
}

/// Putting whitespace in front leaves the canonical form unchanged.
proof fn lemma_prepend_ws(w: Seq<char>, t: Seq<char>)
    requires
        all_ws(w),
    ensures
        normalize(w + t) == normalize(t),
    decreases w.len(),
{
    if w.len() > 0 {
        let w1 = w.drop_first();
        assert(all_ws(w1)) by {
            assert forall|i: int| 0 <= i < w1.len() implies is_ws(#[trigger] w1[i]) by {
                assert(w1[i] == w[i + 1]);
            }
        }
        lemma_prepend_ws(w1, t);
        assert(w + t =~= seq![w[0]] + (w1 + t));
        lemma_prepend_ws_char(w[0], w1 + t);
    } else {
        assert(w + t =~= t);
    }
}

/// Texts whose lines agree once trailing whitespace is dropped from each line
/// are accepted for each other.
pub proof fn lemma_line_trailing_whitespace_ignored(expected: Seq<char>, actual: Seq<char>)
    requires
        lines_of(expected).len() == lines_of(actual).len(),
        forall|i: int|
            0 <= i < lines_of(expected).len() ==> trim_end(#[trigger] lines_of(expected)[i])
                == trim_end(lines_of(actual)[i]),
    ensures
        outputs_match(expected, actual),
{
    assert(trim_ends(lines_of(expected)) =~= trim_ends(lines_of(actual)));
}

/// `ms` without its empty lines at the start.
pub open spec fn drop_leading_blank(ms: Seq<Seq<char>>) -> Seq<Seq<char>>
    decreases ms.len(),
{
    if ms.len() > 0 && ms[0].len() == 0 {
        drop_leading_blank(ms.drop_first())
    } else {
        ms
    }
}

/// `ms` without its empty lines at the end.
pub open spec fn drop_trailing_blank(ms: Seq<Seq<char>>) -> Seq<Seq<char>>
    decreases ms.len(),
{
    if ms.len() > 0 && ms.last().len() == 0 {
        drop_trailing_blank(ms.drop_last())
    } else {
        ms
    }
}

/// The lines of `s`, each without trailing whitespace, with the blank lines
/// at the start and at the end dropped.
pub open spec fn content_lines(s: Seq<char>) -> Seq<Seq<char>> {
    drop_trailing_blank(drop_leading_blank(trim_ends(lines_of(s))))
}

proof fn lemma_trim_join_leading(ms: Seq<Seq<char>>)
    ensures
        trim(join_lines(ms)) == trim(join_lines(drop_leading_blank(ms))),
    decreases ms.len(),
{
    let e = Seq::<char>::empty();
    if ms.len() > 0 && ms[0].len() == 0 {
        let rest = ms.drop_first();
        lemma_trim_join_leading(rest);
        assert(ms[0] =~= e);
        if rest.len() == 0 {
            assert(join_lines(ms) == e);
            assert(join_lines(rest) == e);
        } else {
            assert(ms =~= seq![e] + rest);
            lemma_join_prepend_empty(rest);
            lemma_trim_prepend('\n', join_lines(rest));
        }
    }
}

proof fn lemma_trim_join_trailing(ms: Seq<Seq<char>>)
    ensures
        trim(join_lines(ms)) == trim(join_lines(drop_trailing_blank(ms))),
    decreases ms.len(),
{
    let e = Seq::<char>::empty();
    if ms.len() > 0 && ms.last().len() == 0 {
        let init = ms.drop_last();
        lemma_trim_join_trailing(init);
        assert(ms.last() =~= e);
        if init.len() == 0 {
            assert(join_lines(ms) == e);
            assert(join_lines(init) == e);
        } else {
            assert(join_lines(ms) =~= join_lines(init).push('\n'));
            lemma_trim_append_ws_char(join_lines(init), '\n');
        }
    }
}

proof fn lemma_normalize_by_content(s: Seq<char>)
    ensures
        normalize(s) == trim(join_lines(content_lines(s))),
{
    let ms = trim_ends(lines_of(s));
    lemma_trim_join_leading(ms);
    lemma_trim_join_trailing(drop_leading_blank(ms));
}

/// Texts whose lines agree once trailing whitespace is dropped from each
/// line (a carriage return before a newline included) and blank lines are
/// dropped at the start and at the end are accepted for each other.
pub proof fn lemma_blank_lines_and_line_ends_ignored(expected: Seq<char>, actual: Seq<char>)
    requires
        content_lines(expected) == content_lines(actual),
    ensures
        outputs_match(expected, actual),
{
    lemma_normalize_by_content(expected);
    lemma_normalize_by_content(actual);
}

/// Texts that differ only in whitespace at the ends of lines (a carriage
/// return before a newline included) and in whitespace or blank lines before
/// and after them are accepted for each other.
pub proof fn lemma_whitespace_only_differences_ignored(
    lead: Seq<char>,
    expected: Seq<char>,
    trail: Seq<char>,
    actual: Seq<char>,
)
    requires
        all_ws(lead),
        all_ws(trail),
        lines_of(expected).len() == lines_of(actual).len(),
        forall|i: int|
            0 <= i < lines_of(expected).len() ==> trim_end(#[trigger] lines_of(expected)[i])
                == trim_end(lines_of(actual)[i]),
    ensures
        outputs_match(lead + expected + trail, actual),
{
    lemma_surrounding_whitespace_ignored(lead, expected, trail);
    lemma_line_trailing_whitespace_ignored(expected, actual);
}

/// Whitespace before and after a text, blank lines included, never changes
/// whether it is accepted.
pub proof fn lemma_surrounding_whitespace_ignored(lead: Seq<char>, s: Seq<char>, trail: Seq<char>)
    requires
        all_ws(lead),
        all_ws(trail),
    ensures
        outputs_match(lead + s + trail, s),
{
    lemma_append_ws(lead + s, trail);
    lemma_prepend_ws(lead, s);
}

proof fn lemma_non_ws_push(x: Seq<char>, c: char)
    ensures
        non_ws(x.push(c)) == if is_ws(c) {
            non_ws(x)
        } else {
            non_ws(x).push(c)
        },
{
    reveal(Seq::filter);
    assert(x.push(c).drop_last() =~= x);
}

proof fn lemma_non_ws_trim_end(x: Seq<char>)
    ensures
        non_ws(trim_end(x)) == non_ws(x),
    decreases x.len(),
{
    if x.len() > 0 && is_ws(x.last()) {
        lemma_non_ws_trim_end(x.drop_last());
        lemma_non_ws_push(x.drop_last(), x.last());
        assert(x.drop_last().push(x.last()) =~= x);
    }
}

proof fn lemma_non_ws_trim_start(x: Seq<char>)
    ensures
        non_ws(trim_start(x)) == non_ws(x),
    decreases x.len(),
{
    if x.len() > 0 && is_ws(x[0]) {
        lemma_non_ws_trim_start(x.drop_first());
        assert(x =~= seq![x[0]] + x.drop_first());
        Seq::filter_distributes_over_add(seq![x[0]], x.drop_first(), |c: char| !is_ws(c));
        lemma_non_ws_push(Seq::<char>::empty(), x[0]);
        assert(Seq::<char>::empty().push(x[0]) =~= seq![x[0]]);
        reveal(Seq::filter);
        assert(non_ws(seq![x[0]]) =~= Seq::<char>::empty());
    }
}

proof fn lemma_non_ws_strip(s: Seq<char>)
    ensures
        non_ws(strip_lines(s)) == non_ws(s),
    decreases s.len(),
{
    let pred = |c: char| !is_ws(c);
    if s.len() > 0 {
        let s0 = s.drop_last();
        let c = s.last();
        lemma_non_ws_strip(s0);
        lemma_lines_nonempty(s0);
        lemma_non_ws_push(s0, c);
        assert(s0.push(c) =~= s);
        let ls = lines_of(s0);
        let ms = trim_ends(ls);
        let ms2 = trim_ends(lines_of(s));
        lemma_join_split(ms);
        lemma_join_split(ms2);
        Seq::filter_distributes_over_add(join_head(ms), ms.last(), pred);
        Seq::filter_distributes_over_add(join_head(ms2), ms2.last(), pred);
        lemma_non_ws_trim_end(ls.last());
        if c == '\n' {
            assert(ms2.drop_last() =~= ms);
            assert(ms2.last() == trim_end(Seq::<char>::empty()));
            assert(join_head(ms2) == join_lines(ms) + seq!['\n']);
            Seq::filter_distributes_over_add(join_lines(ms), seq!['\n'], pred);
            lemma_non_ws_push(Seq::<char>::empty(), '\n');
            assert(Seq::<char>::empty().push('\n') =~= seq!['\n']);
            reveal(Seq::filter);
            assert(non_ws(Seq::<char>::empty()) =~= Seq::<char>::empty());
            assert(non_ws(strip_lines(s)) =~= non_ws(s));
        } else {
            assert(ms2.drop_last() =~= ms.drop_last());
            assert(join_head(ms2) == join_head(ms));
            lemma_non_ws_trim_end(ls.last().push(c));
            lemma_non_ws_push(ls.last(), c);
            lemma_non_ws_push(join_lines(ms), c);
            if !is_ws(c) {
                assert(non_ws(strip_lines(s)) =~= non_ws(s));
            }
        }
    } else {
        reveal(Seq::filter);
    }
}

/// Normalising removes whitespace only: the other characters stay, in order.
pub proof fn lemma_normalize_keeps_non_ws(s: Seq<char>)
    ensures
        non_ws(normalize(s)) == non_ws(s),
{
    lemma_non_ws_strip(s);
    lemma_non_ws_trim_end(strip_lines(s));
    lemma_non_ws_trim_start(trim_end(strip_lines(s)));
}

/// Texts that differ in any character other than whitespace are never
/// accepted for each other.
pub proof fn lemma_non_whitespace_difference_detected(expected: Seq<char>, actual: Seq<char>)
    requires
        non_ws(expected) != non_ws(actual),
    ensures
        !outputs_match(expected, actual),
{
    lemma_normalize_keeps_non_ws(expected);
    lemma_normalize_keeps_non_ws(actual);
}

} // verus!
