//! Splitting a line into words, and joining words back into a line.
use vstd::prelude::*;

verus! {

pub open spec fn is_space(c: char) -> bool {
    c == ' ' || c == '\t' || c == '\n' || c == '\r' || c == '\x0B' || c == '\x0C'
}

/// The maximal runs of non-space characters of `s`, in order.
pub open spec fn words(s: Seq<char>) -> Seq<Seq<char>>
    decreases s.len(),
{
    if s.len() == 0 {
        seq![]
    } else {
        let w = words(s.drop_last());
        let c = s.last();
        if is_space(c) {
            w
        } else if s.len() > 1 && !is_space(s[s.len() - 2]) {
            w.update(w.len() - 1, w.last().push(c))
        } else {
            w.push(seq![c])
        }
    }
}

/// The words `ws` with one space between each two.
pub open spec fn join_words(ws: Seq<Seq<char>>) -> Seq<char>
    decreases ws.len(),
{
    if ws.len() == 0 {
        seq![]
    } else if ws.len() == 1 {
        ws[0]
    } else {
        join_words(ws.drop_last()) + seq![' '] + ws.last()
    }
}

/// A word that splitting gives back unchanged: not empty, and without spaces.
pub open spec fn is_plain(w: Seq<char>) -> bool {
    w.len() > 0 && forall|k: int| 0 <= k < w.len() ==> !is_space(#[trigger] w[k])
}

pub open spec fn all_plain(ws: Seq<Seq<char>>) -> bool {
    forall|k: int| 0 <= k < ws.len() ==> is_plain(#[trigger] ws[k])
}

/// `s` with leading spaces removed.
pub open spec fn trim_start(s: Seq<char>) -> Seq<char>
    decreases s.len(),
{
    if s.len() > 0 && is_space(s[0]) {
        trim_start(s.drop_first())
    } else {
        s
    }
}

/// `s` with trailing spaces removed.
pub open spec fn trim_end(s: Seq<char>) -> Seq<char>
    decreases s.len(),
{
    if s.len() > 0 && is_space(s.last()) {
        trim_end(s.drop_last())
    } else {
        s
    }
}

pub open spec fn trimmed(s: Seq<char>) -> Seq<char> {
    trim_end(trim_start(s))
}

pub open spec fn strings_view(v: Seq<String>) -> Seq<Seq<char>> {
    v.map_values(|s: String| s@)
}

/// Appending a plain word after nothing or after a space adds that word.
proof fn lemma_words_append(x: Seq<char>, w: Seq<char>)
    requires
        x.len() == 0 || is_space(x.last()),
        is_plain(w),
    ensures
        words(x + w) == words(x).push(w),
    decreases w.len(),
{
    let s = x + w;
    assert(s.drop_last() == x + w.drop_last());
    if w.len() == 1 {
        assert(w.drop_last() =~= seq![]);
        assert(x + w.drop_last() =~= x);
        assert(w =~= seq![w[0]]);
    } else {
        let v = w.drop_last();
        assert(is_plain(v)) by {
            assert forall|k: int| 0 <= k < v.len() implies !is_space(#[trigger] v[k]) by {
                assert(v[k] == w[k]);
            }
        }
        lemma_words_append(x, v);
        assert(s[s.len() - 2] == w[w.len() - 2]);
        assert(v.push(w.last()) =~= w);
        assert(words(x).push(v).update(words(x).len() as int, v.push(w.last())) =~= words(x).push(w));
    }
}

proof fn lemma_words_space(x: Seq<char>)
    ensures
        words(x.push(' ')) == words(x),
{
    assert(x.push(' ').drop_last() =~= x);
}

/// Splitting joined plain words gives the words back.
pub proof fn lemma_words_join(ws: Seq<Seq<char>>)
    requires
        all_plain(ws),
    ensures
        words(join_words(ws)) == ws,
        ws.len() > 0 ==> join_words(ws).len() > 0 && !is_space(join_words(ws).last()),
        ws.len() > 0 ==> !is_space(join_words(ws)[0]),
    decreases ws.len(),
{
    if ws.len() == 0 {
    } else if ws.len() == 1 {
        assert(is_plain(ws[0]));
        lemma_words_append(seq![], ws[0]);
        assert(seq![] + ws[0] =~= ws[0]);
        assert(ws[0][ws[0].len() - 1] == ws[0].last());
        assert(seq![ws[0]] =~= ws);
    } else {
        let p = ws.drop_last();
        assert(all_plain(p)) by {
            assert forall|k: int| 0 <= k < p.len() implies is_plain(#[trigger] p[k]) by {
                assert(p[k] == ws[k]);
            }
        }
        lemma_words_join(p);
        let a = join_words(p);
        assert(is_plain(ws.last())) by {
            assert(ws.last() == ws[ws.len() - 1]);
        }
        lemma_words_space(a);
        assert(a + seq![' '] =~= a.push(' '));
        lemma_words_append(a.push(' '), ws.last());
        assert(p.push(ws.last()) =~= ws);
        let j = a + seq![' '] + ws.last();
        assert(j[0] == a[0]);
        assert(j.last() == ws.last()[ws.last().len() - 1]);
    }
}

/// `s` after dropping its first `lo` and its last `s.len() - hi` characters.
proof fn lemma_trim_start_skip(s: Seq<char>, lo: int)
    requires
        0 <= lo <= s.len(),
        forall|k: int| 0 <= k < lo ==> is_space(#[trigger] s[k]),
        lo == s.len() || !is_space(s[lo]),
    ensures
        trim_start(s) == s.subrange(lo, s.len() as int),
    decreases lo,
{
    if lo > 0 {
        let t = s.drop_first();
        assert forall|k: int| 0 <= k < lo - 1 implies is_space(#[trigger] t[k]) by {
            assert(t[k] == s[k + 1]);
        }
        if lo - 1 < t.len() {
            assert(t[lo - 1] == s[lo]);
        }
        lemma_trim_start_skip(t, lo - 1);
        assert(t.subrange(lo - 1, t.len() as int) =~= s.subrange(lo, s.len() as int));
    } else {
        assert(s.subrange(0, s.len() as int) =~= s);
    }
}

proof fn lemma_trim_end_skip(s: Seq<char>, hi: int)
    requires
        0 <= hi <= s.len(),
        forall|k: int| hi <= k < s.len() ==> is_space(#[trigger] s[k]),
        hi == 0 || !is_space(s[hi - 1]),
    ensures
        trim_end(s) == s.subrange(0, hi),
    decreases s.len() - hi,
{
    if hi < s.len() {
        let t = s.drop_last();
        assert forall|k: int| hi <= k < t.len() implies is_space(#[trigger] t[k]) by {
            assert(t[k] == s[k]);
        }
        if hi > 0 {
            assert(t[hi - 1] == s[hi - 1]);
        }
        assert(is_space(s[s.len() - 1]));
        lemma_trim_end_skip(t, hi);
        assert(t.subrange(0, hi) =~= s.subrange(0, hi));
    } else {
        assert(s.subrange(0, hi) =~= s);
    }
}

/// The characters of `s`, one by one.
pub fn chars_of(s: &str) -> (r: Vec<char>)
    ensures
        r@ == s@,
{
    let n = s.unicode_len();
    let mut r: Vec<char> = Vec::new();
    let mut i: usize = 0;
    while i < n
        invariant
            n == s@.len(),
            i <= n,
            r@ == s@.subrange(0, i as int),
        decreases n - i,
    {
        r.push(s.get_char(i));
        i = i + 1;
        assert(r@ =~= s@.subrange(0, i as int));
    }
    assert(s@.subrange(0, n as int) =~= s@);
    r
}

pub fn is_space_char(c: char) -> (r: bool)
    ensures
        r == is_space(c),
{
    c == ' ' || c == '\t' || c == '\n' || c == '\r' || c == '\x0B' || c == '\x0C'
}

/// The bounds of `cs` without its leading and trailing spaces.
pub fn trim_bounds(cs: &Vec<char>) -> (r: (usize, usize))
    ensures
        r.0 <= r.1 <= cs@.len(),
        cs@.subrange(r.0 as int, r.1 as int) == trimmed(cs@),
{
    let n = cs.len();
    let mut lo: usize = 0;
    while lo < n && is_space_char(cs[lo])
        invariant
            lo <= n == cs@.len(),
            forall|k: int| 0 <= k < lo ==> is_space(#[trigger] cs@[k]),
        decreases n - lo,
    {
        lo = lo + 1;
    }
    proof {
        lemma_trim_start_skip(cs@, lo as int);
    }
    let ghost t = cs@.subrange(lo as int, n as int);
    let mut hi: usize = n;
    while hi > lo && is_space_char(cs[hi - 1])
        invariant
            lo <= hi <= n == cs@.len(),
            t == cs@.subrange(lo as int, n as int),
            forall|k: int| hi <= k < n ==> is_space(#[trigger] cs@[k]),
        decreases hi,
    {
        hi = hi - 1;
    }
    proof {
        assert forall|k: int| hi - lo <= k < t.len() implies is_space(#[trigger] t[k]) by {
            assert(t[k] == cs@[lo + k]);
        }
        if hi > lo {
            assert(t[hi - lo - 1] == cs@[hi - 1]);
        }
        lemma_trim_end_skip(t, hi - lo);
        assert(t.subrange(0, hi - lo) =~= cs@.subrange(lo as int, hi as int));
    }
    (lo, hi)
}

/// The words of the characters `cs[from..to]` of `s`.
pub fn split_words(s: &str, cs: &Vec<char>, from: usize, to: usize) -> (r: Vec<String>)
    requires
        cs@ == s@,
        from <= to <= cs@.len(),
    ensures
        strings_view(r@) == words(cs@.subrange(from as int, to as int)),
{
    let mut out: Vec<String> = Vec::new();
    let mut start: usize = from;
    let mut in_word = false;
    let mut i: usize = from;
    while i < to
        invariant
            cs@ == s@,
            from <= start <= i <= to <= cs@.len(),
            in_word == (i > from && !is_space(cs@[i - 1])),
            in_word ==> start < i,
            !in_word ==> words(cs@.subrange(from as int, i as int)) == strings_view(out@),
            in_word ==> words(cs@.subrange(from as int, i as int)) == strings_view(out@).push(
                cs@.subrange(start as int, i as int),
            ),
        decreases to - i,
    {
        let c = cs[i];
        let ghost prev = cs@.subrange(from as int, i as int);
        let ghost next = cs@.subrange(from as int, i + 1);
        assert(next.drop_last() =~= prev);
        assert(next.last() == c);
        if is_space_char(c) {
            if in_word {
                let w = s.substring_char(start, i).to_owned();
                let ghost before = out@;
                out.push(w);
                assert(strings_view(out@) =~= strings_view(before).push(cs@.subrange(start as int, i as int)));
                in_word = false;
            }
        } else {
            if !in_word {
                start = i;
                in_word = true;
                proof {
                    if i > from {
                        assert(next[next.len() - 2] == cs@[i - 1]);
                    }
                    assert(cs@.subrange(start as int, i + 1) =~= seq![c]);
                }
            } else {
                proof {
                    assert(next[next.len() - 2] == cs@[i - 1]);
                    assert(cs@.subrange(start as int, i + 1) =~= cs@.subrange(start as int, i as int).push(c));
                }
            }
        }
        i = i + 1;
    }
    if in_word {
        let w = s.substring_char(start, to).to_owned();
        let ghost before = out@;
        out.push(w);
        assert(strings_view(out@) =~= strings_view(before).push(cs@.subrange(start as int, to as int)));
    }
    out
}

} // verus!
