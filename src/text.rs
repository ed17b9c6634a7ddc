//! Character-level helpers: whitespace, substring search, and string building.

use vstd::prelude::*;

verus! {

/// The characters with the Unicode `White_Space` property.
pub open spec fn is_space(c: char) -> bool {
    let u = c as u32;
    (0x9 <= u <= 0xd) || u == 0x20 || u == 0x85 || u == 0xa0 || u == 0x1680 || (0x2000 <= u
        <= 0x200a) || u == 0x2028 || u == 0x2029 || u == 0x202f || u == 0x205f || u == 0x3000
}

/// `needle` occurs in `hay` as a contiguous run of characters.
pub open spec fn contains(hay: Seq<char>, needle: Seq<char>) -> bool {
    exists|i: int|
        0 <= i && i + needle.len() <= hay.len() && #[trigger] hay.subrange(i, i + needle.len())
            == needle
}

/// Whether `c` is a whitespace character.
pub fn space(c: char) -> (r: bool)
    ensures
        r == is_space(c),
{
    let u = c as u32;
    (0x9 <= u && u <= 0xd) || u == 0x20 || u == 0x85 || u == 0xa0 || u == 0x1680 || (0x2000 <= u
        && u <= 0x200a) || u == 0x2028 || u == 0x2029 || u == 0x202f || u == 0x205f || u == 0x3000
}

/// The characters of `s`, in order.
pub fn chars_of(s: &str) -> (r: Vec<char>)
    ensures
        r@ == s@,
{
    let mut r: Vec<char> = Vec::new();
    for c in it: s.chars()
        invariant
            r@ == it.seq().take(it.index() as int),
            it.seq() == s@,
    {
        r.push(c);
    }
    r
}

/// Whether `needle` occurs in `hay`.
pub fn find(hay: &Vec<char>, needle: &Vec<char>) -> (r: bool)
    ensures
        r == contains(hay@, needle@),
{
    let n = needle.len();
    if n > hay.len() {
        return false;
    }
    if n == 0 {
        assert(hay@.subrange(0, 0 + needle@.len() as int) =~= needle@);
        return true;
    }
    let last = hay.len() - n;
    let mut i: usize = 0;
    while i <= last
        invariant
            n == needle@.len(),
            last + n == hay@.len(),
            hay@.len() <= usize::MAX,
            forall|k: int| 0 <= k < i ==> #[trigger] hay@.subrange(k, k + n) != needle@,
        decreases last + 1 - i,
    {
        let mut j: usize = 0;
        let mut same = true;
        while j < n && same
            invariant
                n == needle@.len(),
                i <= last,
                last + n == hay@.len(),
                hay@.len() <= usize::MAX,
                j <= n,
                same == forall|t: int| 0 <= t < j ==> hay@[i + t] == needle@[t],
            decreases n - j,
        {
            same = hay[i + j] == needle[j];
            j += 1;
        }
        if same {
            assert(hay@.subrange(i as int, i + needle@.len()) =~= needle@);
            return true;
        }
        assert(hay@.subrange(i as int, i + n) != needle@) by {
            let t = j - 1;
            assert(hay@.subrange(i as int, i + n)[t as int] == hay@[i + t]);
        }
        i += 1;
    }
    false
}

/// Relies on `String::push`: the character is appended at the end.
pub assume_specification[ String::push ](string: &mut String, ch: char)
    ensures
        final(string)@ == old(string)@.push(ch),
;

/// A string holding `cs[lo..hi]`.
pub fn string_of(cs: &Vec<char>, lo: usize, hi: usize) -> (r: String)
    requires
        lo <= hi <= cs@.len(),
    ensures
        r@ == cs@.subrange(lo as int, hi as int),
{
    let mut r = String::new();
    let mut k = lo;
    while k < hi
        invariant
            lo <= k <= hi <= cs@.len(),
            r@ == cs@.subrange(lo as int, k as int),
        decreases hi - k,
    {
        r.push(cs[k]);
        assert(cs@.subrange(lo as int, k + 1) =~= cs@.subrange(lo as int, k as int).push(cs@[k as int]));
        k += 1;
    }
    r
}

/// The whitespace-separated words of `s`, where `cur` is a word already begun before it.
pub open spec fn words_after(s: Seq<char>, cur: Seq<char>) -> Seq<Seq<char>>
    decreases s.len(),
{
    let done = if cur.len() > 0 {
        seq![cur]
    } else {
        seq![]
    };
    if s.len() == 0 {
        done
    } else if is_space(s[0]) {
        done + words_after(s.drop_first(), seq![])
    } else {
        words_after(s.drop_first(), cur.push(s[0]))
    }
}

/// The maximal runs of non-whitespace characters of `s`, in order.
pub open spec fn words(s: Seq<char>) -> Seq<Seq<char>> {
    words_after(s, seq![])
}

proof fn lemma_words_step(s: Seq<char>, i: int, hi: int, cur: Seq<char>)
    requires
        0 <= i < hi <= s.len(),
    ensures
        is_space(s[i]) ==> words_after(s.subrange(i, hi), cur) == (if cur.len() > 0 {
            seq![cur]
        } else {
            seq![]
        }) + words_after(s.subrange(i + 1, hi), seq![]),
        !is_space(s[i]) ==> words_after(s.subrange(i, hi), cur) == words_after(
            s.subrange(i + 1, hi),
            cur.push(s[i]),
        ),
{
    assert(s.subrange(i, hi).drop_first() =~= s.subrange(i + 1, hi));
}

/// The first word of `cs[from..hi]`, as the bounds `(start, end)` of its characters; an
/// empty range at `hi` when there is none.
pub fn next_word(cs: &Vec<char>, from: usize, hi: usize) -> (r: (usize, usize))
    requires
        from <= hi <= cs@.len(),
    ensures
        from <= r.0 <= r.1 <= hi,
        r.0 == r.1 ==> r.1 == hi && words(cs@.subrange(from as int, hi as int)) == Seq::<
            Seq<char>,
        >::empty(),
        r.0 < r.1 ==> words(cs@.subrange(from as int, hi as int)) == seq![
            cs@.subrange(r.0 as int, r.1 as int),
        ] + words(cs@.subrange(r.1 as int, hi as int)),
{
    let mut i = from;
    while i < hi && space(cs[i])
        invariant
            from <= i <= hi <= cs@.len(),
            words(cs@.subrange(from as int, hi as int)) == words(cs@.subrange(i as int, hi as int)),
        decreases hi - i,
    {
        proof {
            lemma_words_step(cs@, i as int, hi as int, seq![]);
            assert(Seq::<Seq<char>>::empty() + words(cs@.subrange(i + 1, hi as int)) =~= words(
                cs@.subrange(i + 1, hi as int),
            ));
        }
        i += 1;
    }
    if i == hi {
        return (i, i);
    }
    let start = i;
    proof {
        assert(cs@.subrange(start as int, start as int) =~= Seq::<char>::empty());
    }
    while i < hi && !space(cs[i])
        invariant
            from <= start <= i <= hi <= cs@.len(),
            words(cs@.subrange(from as int, hi as int)) == words_after(
                cs@.subrange(i as int, hi as int),
                cs@.subrange(start as int, i as int),
            ),
            i == start || !is_space(cs@[start as int]),
            start < hi && !is_space(cs@[start as int]),
        decreases hi - i,
    {
        proof {
            lemma_words_step(cs@, i as int, hi as int, cs@.subrange(start as int, i as int));
            assert(cs@.subrange(start as int, i as int).push(cs@[i as int]) =~= cs@.subrange(
                start as int,
                i + 1,
            ));
        }
        i += 1;
    }
    proof {
        let w = cs@.subrange(start as int, i as int);
        assert(w.len() > 0);
        if i < hi {
            lemma_words_step(cs@, i as int, hi as int, w);
            lemma_words_step(cs@, i as int, hi as int, seq![]);
            assert(Seq::<Seq<char>>::empty() + words(cs@.subrange(i + 1, hi as int)) =~= words(
                cs@.subrange(i + 1, hi as int),
            ));
        } else {
            assert(cs@.subrange(i as int, hi as int).len() == 0);
        }
    }
    (start, i)
}

/// `l` without one final carriage return.
pub open spec fn trim_cr(l: Seq<char>) -> Seq<char> {
    if l.len() > 0 && l.last() == '\r' {
        l.drop_last()
    } else {
        l
    }
}

/// The lines of `s`, split at each `'\n'`, where `cur` is a line already begun before it.
/// A line ended by `'\n'` loses one carriage return just before it; the last line, when no
/// `'\n'` ends it, keeps its characters. A final `'\n'` does not start another line.
pub open spec fn lines_after(s: Seq<char>, cur: Seq<char>) -> Seq<Seq<char>>
    decreases s.len(),
{
    if s.len() == 0 {
        if cur.len() > 0 {
            seq![cur]
        } else {
            seq![]
        }
    } else if s[0] == '\n' {
        seq![trim_cr(cur)] + lines_after(s.drop_first(), seq![])
    } else {
        lines_after(s.drop_first(), cur.push(s[0]))
    }
}

/// The lines of `s`.
pub open spec fn lines(s: Seq<char>) -> Seq<Seq<char>> {
    lines_after(s, seq![])
}

/// The pieces of `cs` that the bounds in `spans` delimit.
pub open spec fn pieces(cs: Seq<char>, spans: Seq<(usize, usize)>) -> Seq<Seq<char>> {
    spans.map_values(|b: (usize, usize)| cs.subrange(b.0 as int, b.1 as int))
}

/// The bounds of each line of `cs`.
pub fn line_spans(cs: &Vec<char>) -> (r: Vec<(usize, usize)>)
    ensures
        pieces(cs@, r@) == lines(cs@),
        forall|k: int| 0 <= k < r@.len() ==> r@[k].0 <= #[trigger] r@[k].1 <= cs@.len(),
{
    let n = cs.len();
    let mut r: Vec<(usize, usize)> = Vec::new();
    let mut start: usize = 0;
    let mut i: usize = 0;
    proof {
        assert(cs@.subrange(0, n as int) =~= cs@);
        assert(cs@.subrange(0, 0) =~= Seq::<char>::empty());
        assert(pieces(cs@, r@) + lines(cs@) =~= lines(cs@));
    }
    while i < n
        invariant
            n == cs@.len(),
            start <= i <= n,
            lines(cs@) == pieces(cs@, r@) + lines_after(
                cs@.subrange(i as int, n as int),
                cs@.subrange(start as int, i as int),
            ),
            forall|k: int| 0 <= k < r@.len() ==> r@[k].0 <= #[trigger] r@[k].1 <= n,
        decreases n - i,
    {
        let ghost cur = cs@.subrange(start as int, i as int);
        let ghost before = pieces(cs@, r@);
        proof {
            assert(cs@.subrange(i as int, n as int).drop_first() =~= cs@.subrange(i + 1, n as int));
        }
        if cs[i] == '\n' {
            let end = if i > start && cs[i - 1] == '\r' {
                i - 1
            } else {
                i
            };
            r.push((start, end));
            proof {
                assert(trim_cr(cur) =~= cs@.subrange(start as int, end as int));
                assert(pieces(cs@, r@) =~= before.push(trim_cr(cur)));
                assert(cs@.subrange(i + 1, i + 1) =~= Seq::<char>::empty());
                assert(before + (seq![trim_cr(cur)] + lines_after(
                    cs@.subrange(i + 1, n as int),
                    seq![],
                )) =~= before.push(trim_cr(cur)) + lines_after(
                    cs@.subrange(i + 1, n as int),
                    seq![],
                ));
            }
            start = i + 1;
        } else {
            proof {
                assert(cur.push(cs@[i as int]) =~= cs@.subrange(start as int, i + 1));
            }
        }
        i += 1;
    }
    let ghost before = pieces(cs@, r@);
    if start < n {
        r.push((start, n));
        proof {
            assert(pieces(cs@, r@) =~= before.push(cs@.subrange(start as int, n as int)));
        }
    } else {
        proof {
            assert(before + Seq::<Seq<char>>::empty() =~= before);
        }
    }
    proof {
        assert(before + seq![cs@.subrange(start as int, n as int)] =~= before.push(
            cs@.subrange(start as int, n as int),
        ));
    }
    r
}

/// `s` with every occurrence of `pat` removed, scanning from the left; occurrences do not
/// overlap.
pub open spec fn without(s: Seq<char>, pat: Seq<char>) -> Seq<char>
    decreases s.len(),
{
    if s.len() == 0 {
        seq![]
    } else if 0 < pat.len() <= s.len() && s.take(pat.len() as int) == pat {
        without(s.skip(pat.len() as int), pat)
    } else {
        seq![s[0]] + without(s.drop_first(), pat)
    }
}

/// Whether a non-empty `pat` occurs in `cs` at position `i`.
pub fn starts_at(cs: &Vec<char>, i: usize, pat: &Vec<char>) -> (r: bool)
    requires
        i <= cs@.len(),
    ensures
        r == (0 < pat@.len() && i + pat@.len() <= cs@.len() && cs@.subrange(
            i as int,
            i + pat@.len(),
        ) == pat@),
{
    let m = pat.len();
    if m == 0 || m > cs.len() - i {
        return false;
    }
    let mut j: usize = 0;
    while j < m
        invariant
            m == pat@.len(),
            i + m <= cs@.len(),
            cs@.len() <= usize::MAX,
            j <= m,
            forall|t: int| 0 <= t < j ==> cs@[i + t] == pat@[t],
        decreases m - j,
    {
        if cs[i + j] != pat[j] {
            assert(cs@.subrange(i as int, i + m)[j as int] == cs@[i + j]);
            return false;
        }
        j += 1;
    }
    assert(cs@.subrange(i as int, i + m) =~= pat@);
    true
}

/// `cs` with every occurrence of `pat` removed.
pub fn strip(cs: &Vec<char>, pat: &Vec<char>) -> (r: Vec<char>)
    ensures
        r@ == without(cs@, pat@),
{
    let n = cs.len();
    let m = pat.len();
    let mut out: Vec<char> = Vec::new();
    let mut i: usize = 0;
    proof {
        assert(cs@.subrange(0, n as int) =~= cs@);
        assert(out@ + cs@ =~= cs@);
    }
    while i < n
        invariant
            n == cs@.len(),
            m == pat@.len(),
            i <= n,
            without(cs@, pat@) == out@ + without(cs@.subrange(i as int, n as int), pat@),
        decreases n - i,
    {
        let ghost rest = cs@.subrange(i as int, n as int);
        let ghost before = out@;
        if starts_at(cs, i, pat) {
            proof {
                assert(rest.take(m as int) =~= cs@.subrange(i as int, i + m));
                assert(rest.skip(m as int) =~= cs@.subrange(i + m, n as int));
            }
            i += m;
        } else {
            proof {
                if 0 < m <= rest.len() {
                    assert(rest.take(m as int) =~= cs@.subrange(i as int, i + m));
                }
                assert(rest.drop_first() =~= cs@.subrange(i + 1, n as int));
                assert(before + (seq![cs@[i as int]] + without(rest.drop_first(), pat@))
                    =~= before.push(cs@[i as int]) + without(rest.drop_first(), pat@));
            }
            out.push(cs[i]);
            i += 1;
        }
    }
    proof {
        assert(out@ + Seq::<char>::empty() =~= out@);
    }
    out
}

} // verus!
