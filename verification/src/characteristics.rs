//! The special characteristics text of a vehicle, as the API shows it.
use vstd::prelude::*;
use crate::text::{chars_of, copy_opt, opt_view, string_of};

verus! {

/// The space-separated words among the first `n` characters of `s`: (words done, word
/// being read).
pub open spec fn words_prefix(s: Seq<char>, n: int) -> (Seq<Seq<char>>, Seq<char>)
    decreases n,
{
    if n <= 0 {
        (Seq::empty(), Seq::empty())
    } else {
        let (done, cur) = words_prefix(s, n - 1);
        if s[n - 1] == ' ' {
            if cur.len() > 0 {
                (done.push(cur), Seq::empty())
            } else {
                (done, Seq::empty())
            }
        } else {
            (done, cur.push(s[n - 1]))
        }
    }
}

/// The non-empty pieces of `s` between spaces, as `split(" ")` and a filter of the empty
/// pieces give them.
pub open spec fn words(s: Seq<char>) -> Seq<Seq<char>> {
    let (done, cur) = words_prefix(s, s.len() as int);
    if cur.len() > 0 {
        done.push(cur)
    } else {
        done
    }
}

/// Words joined with one space between each two.
pub open spec fn join_words(ws: Seq<Seq<char>>) -> Seq<char>
    decreases ws.len(),
{
    if ws.len() == 0 {
        Seq::empty()
    } else if ws.len() == 1 {
        ws[0]
    } else {
        join_words(ws.drop_last()) + seq![' '] + ws.last()
    }
}

/// `s` with its runs of spaces made single and its spaces at either end removed.
pub open spec fn tidy(s: Seq<char>) -> Seq<char> {
    join_words(words(s))
}

/// The words of a text.
pub fn split_words(s: &[char]) -> (out: Vec<Vec<char>>)
    ensures
        out@.len() == words(s@).len(),
        forall|k: int| 0 <= k < out@.len() ==> #[trigger] out@[k]@ == words(s@)[k],
{
    let mut out: Vec<Vec<char>> = Vec::new();
    let mut cur: Vec<char> = Vec::new();
    let n = s.len();
    for i in 0..n
        invariant
            n == s@.len(),
            out@.len() == words_prefix(s@, i as int).0.len(),
            forall|k: int|
                0 <= k < out@.len() ==> #[trigger] out@[k]@ == words_prefix(s@, i as int).0[k],
            cur@ == words_prefix(s@, i as int).1,
    {
        if s[i] == ' ' {
            if cur.len() > 0 {
                out.push(cur);
            }
            cur = Vec::new();
        } else {
            cur.push(s[i]);
        }
    }
    if cur.len() > 0 {
        out.push(cur);
    }
    out
}

/// A text with its runs of spaces made single and its spaces at either end removed.
pub fn tidy_spaces(text: &str) -> (r: String)
    ensures
        r@ == tidy(text@),
{
    let cs = chars_of(text);
    let ws = split_words(cs.as_slice());
    let ghost target = words(text@);
    let mut out: Vec<char> = Vec::new();
    let n = ws.len();
    for i in 0..n
        invariant
            n == ws@.len(),
            n == target.len(),
            target == words(text@),
            forall|k: int| 0 <= k < ws@.len() ==> #[trigger] ws@[k]@ == target[k],
            out@ == join_words(target.take(i as int)),
    {
        assert(target.take(i + 1).drop_last() =~= target.take(i as int));
        if i > 0 {
            out.push(' ');
        }
        let w = &ws[i];
        let m = w.len();
        let ghost before = out@;
        for j in 0..m
            invariant
                m == w@.len(),
                out@ == before + w@.take(j as int),
        {
            out.push(w[j]);
            assert(w@.take(j + 1) =~= w@.take(j as int).push(w@[j as int]));
        }
        assert(w@.take(m as int) =~= w@);
        proof {
            let t = target.take(i + 1);
            if i == 0 {
                assert(t.len() == 1);
                assert(out@ =~= t[0]);
            } else {
                assert(out@ =~= join_words(t.drop_last()) + seq![' '] + t.last());
            }
        }
    }
    assert(target.take(n as int) =~= target);
    string_of(out.as_slice())
}

/// The text shown for a vehicle's special characteristics: the description found for its
/// code, else its own value, tidied of spaces; nothing where neither exists.
pub open spec fn shown_characteristics(lookup: Option<Seq<char>>, own: Option<Seq<char>>) -> Option<Seq<char>> {
    match lookup {
        Some(v) => Some(tidy(v)),
        None => match own {
            Some(v) => Some(tidy(v)),
            None => None,
        },
    }
}

/// The special characteristics shown for a vehicle, from the description that the
/// reference codes give its code (if any) and its own value.
pub fn special_characteristics_value(lookup: Option<String>, own: &Option<String>) -> (r: Option<String>)
    ensures
        opt_view(r) == shown_characteristics(opt_view(lookup), opt_view(*own)),
{
    let value = match lookup {
        Some(v) => Some(v),
        None => copy_opt(own),
    };
    match value {
        Some(v) => Some(tidy_spaces(v.as_str())),
        None => None,
    }
}

/// The words of a text are not empty and hold no space.
proof fn lemma_words_prefix_clean(s: Seq<char>, n: int)
    requires
        0 <= n <= s.len(),
    ensures
        forall|k: int|
            0 <= k < words_prefix(s, n).0.len() ==> #[trigger] words_prefix(s, n).0[k].len() > 0
                && !words_prefix(s, n).0[k].contains(' '),
        !words_prefix(s, n).1.contains(' '),
    decreases n,
{
    if n > 0 {
        lemma_words_prefix_clean(s, n - 1);
        let (done, cur) = words_prefix(s, n - 1);
        if s[n - 1] != ' ' {
            let next = cur.push(s[n - 1]);
            assert forall|j: int| 0 <= j < next.len() implies #[trigger] next[j] != ' ' by {
                if j < cur.len() {
                    assert(!cur.contains(' '));
                    assert(next[j] == cur[j]);
                }
            }
        }
    }
}

/// Words that are not empty and hold no space, joined: the text starts and ends with no
/// space, and no two spaces follow each other.
proof fn lemma_join_clean(ws: Seq<Seq<char>>)
    requires
        forall|k: int| 0 <= k < ws.len() ==> #[trigger] ws[k].len() > 0 && !ws[k].contains(' '),
    ensures
        join_words(ws).len() > 0 ==> join_words(ws)[0] != ' ' && join_words(ws).last() != ' ',
        forall|i: int|
            0 <= i < join_words(ws).len() - 1 ==> !(#[trigger] join_words(ws)[i] == ' '
                && join_words(ws)[i + 1] == ' '),
    decreases ws.len(),
{
    if ws.len() == 1 {
        assert(ws[0].len() > 0 && !ws[0].contains(' '));
        assert(ws[0][0] != ' ');
        assert(ws[0][ws[0].len() - 1] != ' ');
    } else if ws.len() > 1 {
        let front = ws.drop_last();
        assert forall|k: int| 0 <= k < front.len() implies #[trigger] front[k].len() > 0
            && !front[k].contains(' ') by {
            assert(front[k] == ws[k]);
        }
        lemma_join_clean(front);
        let a = join_words(front);
        let w = ws.last();
        assert(w == ws[ws.len() - 1]);
        assert(w.len() > 0 && !w.contains(' '));
        let j = a + seq![' '] + w;
        assert(join_words(ws) == j);
        assert(a.len() > 0) by {
            if front.len() == 1 {
                assert(front[0].len() > 0);
            } else {
                assert(front.len() > 1);
            }
        }
        assert(j[0] == a[0]);
        assert(j.last() == w[w.len() - 1]);
        assert forall|i: int| 0 <= i < j.len() - 1 implies !(#[trigger] j[i] == ' ' && j[i + 1]
            == ' ') by {
            if i < a.len() - 1 {
                assert(j[i] == a[i] && j[i + 1] == a[i + 1]);
            } else if i == a.len() - 1 {
                assert(j[i] == a.last());
            } else if i == a.len() {
                assert(j[i + 1] == w[0]);
            } else {
                assert(j[i] == w[i - a.len() - 1]);
            }
        }
    }
}

/// A tidied text starts and ends with no space, and holds no two spaces in a row.
pub proof fn lemma_tidy_spacing(s: Seq<char>)
    ensures
        tidy(s).len() > 0 ==> tidy(s)[0] != ' ' && tidy(s).last() != ' ',
        forall|i: int| 0 <= i < tidy(s).len() - 1 ==> !(#[trigger] tidy(s)[i] == ' ' && tidy(s)[i + 1] == ' '),
{
    lemma_words_prefix_clean(s, s.len() as int);
    let (done, cur) = words_prefix(s, s.len() as int);
    let ws = words(s);
    assert forall|k: int| 0 <= k < ws.len() implies #[trigger] ws[k].len() > 0 && !ws[k].contains(' ') by {
        if cur.len() > 0 && k == done.len() {
            assert(ws[k] == cur);
        } else {
            assert(ws[k] == done[k]);
        }
    }
    lemma_join_clean(ws);
}

/// The words read so far depend only on the characters read so far.
proof fn lemma_words_prefix_same(s: Seq<char>, t: Seq<char>, n: int)
    requires
        0 <= n <= s.len(),
        n <= t.len(),
        forall|i: int| 0 <= i < n ==> s[i] == t[i],
    ensures
        words_prefix(s, n) == words_prefix(t, n),
    decreases n,
{
    if n > 0 {
        lemma_words_prefix_same(s, t, n - 1);
    }
}

/// Reading a run of non-space characters extends the word being read.
proof fn lemma_words_prefix_run(s: Seq<char>, start: int, k: int)
    requires
        0 <= start,
        0 <= k,
        start + k <= s.len(),
        forall|i: int| start <= i < start + k ==> s[i] != ' ',
    ensures
        words_prefix(s, start + k) == (
            words_prefix(s, start).0,
            words_prefix(s, start).1 + s.subrange(start, start + k),
        ),
    decreases k,
{
    if k == 0 {
        assert(words_prefix(s, start).1 + s.subrange(start, start) =~= words_prefix(s, start).1);
    } else {
        lemma_words_prefix_run(s, start, k - 1);
        assert(words_prefix(s, start).1 + s.subrange(start, start + k) =~= (words_prefix(s, start).1
            + s.subrange(start, start + k - 1)).push(s[start + k - 1]));
    }
}

/// Reading words joined with single spaces gives the words back: all but the last done,
/// the last being read.
proof fn lemma_words_of_join(ws: Seq<Seq<char>>)
    requires
        ws.len() > 0,
        forall|k: int| 0 <= k < ws.len() ==> #[trigger] ws[k].len() > 0 && !ws[k].contains(' '),
    ensures
        words_prefix(join_words(ws), join_words(ws).len() as int) == (ws.drop_last(), ws.last()),
    decreases ws.len(),
{
    let j = join_words(ws);
    let w = ws.last();
    assert(ws[ws.len() - 1] == w);
    assert forall|i: int| 0 <= i < w.len() implies w[i] != ' ' by {
        if w[i] == ' ' {
            assert(w.contains(' '));
        }
    }
    if ws.len() == 1 {
        assert(j == w);
        lemma_words_prefix_run(j, 0, w.len() as int);
        assert(Seq::<char>::empty() + j.subrange(0, w.len() as int) =~= w);
        assert(ws.drop_last() =~= Seq::<Seq<char>>::empty());
    } else {
        let front = ws.drop_last();
        assert forall|k: int| 0 <= k < front.len() implies #[trigger] front[k].len() > 0
            && !front[k].contains(' ') by {
            assert(front[k] == ws[k]);
        }
        lemma_words_of_join(front);
        let jf = join_words(front);
        assert(j == jf + seq![' '] + w);
        let m = jf.len() as int;
        lemma_words_prefix_same(j, jf, m);
        assert(front.last() == front[front.len() - 1]);
        assert(front.last().len() > 0);
        assert(j[m] == ' ');
        assert(words_prefix(j, m + 1) == (front.drop_last().push(front.last()), Seq::<char>::empty()));
        assert(front.drop_last().push(front.last()) =~= front);
        lemma_words_prefix_run(j, m + 1, w.len() as int);
        assert(j.subrange(m + 1, m + 1 + w.len()) =~= w);
        assert(Seq::<char>::empty() + w =~= w);
    }
}

/// Tidying a tidied text changes nothing.
pub proof fn lemma_tidy_idempotent(s: Seq<char>)
    ensures
        tidy(tidy(s)) == tidy(s),
{
    let ws = words(s);
    lemma_words_prefix_clean(s, s.len() as int);
    let (done, cur) = words_prefix(s, s.len() as int);
    assert forall|k: int| 0 <= k < ws.len() implies #[trigger] ws[k].len() > 0 && !ws[k].contains(' ') by {
        if cur.len() > 0 && k == done.len() {
            assert(ws[k] == cur);
        } else {
            assert(ws[k] == done[k]);
        }
    }
    if ws.len() == 0 {
        assert(tidy(s) =~= Seq::<char>::empty());
        assert(words(tidy(s)) =~= Seq::<Seq<char>>::empty());
    } else {
        lemma_words_of_join(ws);
        assert(ws.last().len() > 0);
        assert(words(tidy(s)) == ws.drop_last().push(ws.last()));
        assert(ws.drop_last().push(ws.last()) =~= ws);
    }
}

} // verus!
