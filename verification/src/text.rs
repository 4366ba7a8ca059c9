//! Character-level text helpers with the semantics of Rust's `str` methods
//! `split_whitespace`, `lines` and `parse`.

use vstd::prelude::*;

verus! {

/// Unicode `White_Space`, the property that `char::is_whitespace` tests.
pub open spec fn is_ws(c: char) -> bool {
    ||| ('\u{9}' <= c && c <= '\u{d}')
    ||| c == ' '
    ||| c == '\u{85}'
    ||| c == '\u{a0}'
    ||| c == '\u{1680}'
    ||| ('\u{2000}' <= c && c <= '\u{200a}')
    ||| c == '\u{2028}'
    ||| c == '\u{2029}'
    ||| c == '\u{202f}'
    ||| c == '\u{205f}'
    ||| c == '\u{3000}'
}

pub fn is_whitespace(c: char) -> (b: bool)
    ensures
        b == is_ws(c),
{
    ('\u{9}' <= c && c <= '\u{d}') || c == ' ' || c == '\u{85}' || c == '\u{a0}' || c
        == '\u{1680}' || ('\u{2000}' <= c && c <= '\u{200a}') || c == '\u{2028}' || c
        == '\u{2029}' || c == '\u{202f}' || c == '\u{205f}' || c == '\u{3000}'
}

/// The characters of `s`, in order.
pub fn chars_of(s: &str) -> (v: Vec<char>)
    ensures
        v@ == s@,
{
    let mut v: Vec<char> = Vec::new();
    for c in it: s.chars()
        invariant
            v@ == it.seq().take(it.index() as int),
    {
        v.push(c);
    }
    v
}


/// Number of leading characters of `s` that satisfy `is_ws`.
pub open spec fn ws_prefix_len(s: Seq<char>) -> nat
    decreases s.len(),
{
    if s.len() > 0 && is_ws(s[0]) {
        1 + ws_prefix_len(s.drop_first())
    } else {
        0
    }
}

/// Number of leading characters of `s` that are not whitespace.
pub open spec fn word_prefix_len(s: Seq<char>) -> nat
    decreases s.len(),
{
    if s.len() > 0 && !is_ws(s[0]) {
        1 + word_prefix_len(s.drop_first())
    } else {
        0
    }
}

pub proof fn lemma_word_prefix_len_bound(s: Seq<char>)
    ensures
        word_prefix_len(s) <= s.len(),
        s.len() > 0 && !is_ws(s[0]) ==> word_prefix_len(s) >= 1,
    decreases s.len(),
{
    if s.len() > 0 && !is_ws(s[0]) {
        lemma_word_prefix_len_bound(s.drop_first());
    }
}

/// The whitespace-separated words of `s`, as `str::split_whitespace` yields them.
pub open spec fn words(s: Seq<char>) -> Seq<Seq<char>>
    decreases s.len(),
{
    if s.len() == 0 {
        seq![]
    } else if is_ws(s[0]) {
        words(s.drop_first())
    } else {
        let n = word_prefix_len(s);
        proof {
            lemma_word_prefix_len_bound(s);
        }
        seq![s.take(n as int)] + words(s.skip(n as int))
    }
}

/// The `n`-th word of `s`, or the empty text where `s` has fewer words
/// (`split.next().map_or("", |s| s)`).
pub open spec fn word_or_empty(s: Seq<char>, n: int) -> Seq<char> {
    if 0 <= n < words(s).len() {
        words(s)[n]
    } else {
        Seq::empty()
    }
}

/// Number of leading characters of `s` before the first line feed.
pub open spec fn line_len(s: Seq<char>) -> nat
    decreases s.len(),
{
    if s.len() > 0 && s[0] != '\n' {
        1 + line_len(s.drop_first())
    } else {
        0
    }
}

pub proof fn lemma_line_len_bound(s: Seq<char>)
    ensures
        line_len(s) <= s.len(),
        line_len(s) < s.len() ==> s[line_len(s) as int] == '\n',
        forall|i: int| 0 <= i < line_len(s) ==> s[i] != '\n',
    decreases s.len(),
{
    if s.len() > 0 && s[0] != '\n' {
        lemma_line_len_bound(s.drop_first());
        assert forall|i: int| 0 <= i < line_len(s) implies s[i] != '\n' by {
            if i > 0 {
                assert(s[i] == s.drop_first()[i - 1]);
            }
        }
    }
}

/// The pieces of `s` between line feeds.
///
/// Every text below is read word by word, a line at a time; for that reading
/// this split gives the same words on the same lines as `str::trim` followed by
/// `str::lines`: the only differences are lines made of whitespace alone, and a
/// carriage return before a line feed, which is whitespace.
pub open spec fn lines(s: Seq<char>) -> Seq<Seq<char>>
    decreases s.len(),
{
    let l = line_len(s);
    proof {
        lemma_line_len_bound(s);
    }
    if l >= s.len() {
        seq![s]
    } else {
        seq![s.take(l as int)] + lines(s.skip((l + 1) as int))
    }
}

/// Finds the first word of `cs[from..end]`: its bounds, and the end of the line's
/// remaining words.
pub fn next_word(cs: &Vec<char>, from: usize, end: usize) -> (r: (usize, usize))
    requires
        from <= end <= cs.len(),
    ensures
        from <= r.0 <= r.1 <= end,
        r.0 == r.1 ==> r.1 == end && words(cs@.subrange(from as int, end as int)).len() == 0,
        r.0 < r.1 ==> words(cs@.subrange(from as int, end as int)) == seq![
            cs@.subrange(r.0 as int, r.1 as int),
        ] + words(cs@.subrange(r.1 as int, end as int)),
{
    let mut i = from;
    while i < end && is_whitespace(cs[i])
        invariant
            from <= i <= end <= cs.len(),
            words(cs@.subrange(from as int, end as int)) == words(
                cs@.subrange(i as int, end as int),
            ),
        decreases end - i,
    {
        proof {
            let s = cs@.subrange(i as int, end as int);
            assert(s.drop_first() =~= cs@.subrange(i + 1, end as int));
        }
        i = i + 1;
    }
    if i == end {
        proof {
            assert(cs@.subrange(i as int, end as int).len() == 0);
        }
        return (end, end);
    }
    let mut j = i + 1;
    proof {
        let s = cs@.subrange(i as int, end as int);
        assert(s.drop_first() =~= cs@.subrange(i + 1, end as int));
    }
    while j < end && !is_whitespace(cs[j])
        invariant
            i < j <= end <= cs.len(),
            !is_ws(cs@[i as int]),
            word_prefix_len(cs@.subrange(i as int, end as int)) == (j - i) + word_prefix_len(
                cs@.subrange(j as int, end as int),
            ),
        decreases end - j,
    {
        proof {
            let s = cs@.subrange(j as int, end as int);
            assert(s.drop_first() =~= cs@.subrange(j + 1, end as int));
        }
        j = j + 1;
    }
    proof {
        let s = cs@.subrange(i as int, end as int);
        let n = word_prefix_len(s);
        assert(word_prefix_len(cs@.subrange(j as int, end as int)) == 0);
        assert(n == j - i);
        assert(s.take(n as int) =~= cs@.subrange(i as int, j as int));
        assert(s.skip(n as int) =~= cs@.subrange(j as int, end as int));
    }
    (i, j)
}

/// Finds the end of the line that starts at `from`: the position of the next line
/// feed, or the end of the text.
pub fn line_end(cs: &Vec<char>, from: usize) -> (r: usize)
    requires
        from <= cs.len(),
    ensures
        from <= r <= cs.len(),
        r == cs.len() ==> lines(cs@.subrange(from as int, cs.len() as int)) == seq![
            cs@.subrange(from as int, cs.len() as int),
        ],
        r < cs.len() ==> lines(cs@.subrange(from as int, cs.len() as int)) == seq![
            cs@.subrange(from as int, r as int),
        ] + lines(cs@.subrange(r + 1, cs.len() as int)),
{
    let mut j = from;
    while j < cs.len() && cs[j] != '\n'
        invariant
            from <= j <= cs.len(),
            line_len(cs@.subrange(from as int, cs.len() as int)) == (j - from) + line_len(
                cs@.subrange(j as int, cs.len() as int),
            ),
        decreases cs.len() - j,
    {
        proof {
            let s = cs@.subrange(j as int, cs.len() as int);
            assert(s.drop_first() =~= cs@.subrange(j + 1, cs.len() as int));
        }
        j = j + 1;
    }
    proof {
        let s = cs@.subrange(from as int, cs.len() as int);
        assert(line_len(cs@.subrange(j as int, cs.len() as int)) == 0);
        assert(s.take(j - from) =~= cs@.subrange(from as int, j as int));
        if j < cs.len() {
            assert(s.skip(j - from + 1) =~= cs@.subrange(j + 1, cs.len() as int));
        } else {
            assert(s.take(j - from) =~= s);
        }
    }
    j
}

pub open spec fn is_digit(c: char) -> bool {
    '0' <= c && c <= '9'
}

pub open spec fn digit_value(c: char) -> nat {
    ((c as int) - ('0' as int)) as nat
}

/// The number that a sequence of decimal digits writes.
pub open spec fn digits_value(s: Seq<char>) -> nat
    decreases s.len(),
{
    if s.len() == 0 {
        0
    } else {
        digits_value(s.drop_last()) * 10 + digit_value(s.last())
    }
}

/// The digits that `str::parse` reads for an unsigned type: one leading `+` is allowed.
pub open spec fn unsigned_digits(s: Seq<char>) -> Seq<char> {
    if s.len() > 0 && s[0] == '+' {
        s.drop_first()
    } else {
        s
    }
}

/// What `str::parse` gives for an unsigned integer type whose largest value is `max`.
pub open spec fn parse_unsigned(s: Seq<char>, max: nat) -> Option<nat> {
    let d = unsigned_digits(s);
    if d.len() > 0 && (forall|i: int| 0 <= i < d.len() ==> is_digit(#[trigger] d[i]))
        && digits_value(d) <= max {
        Some(digits_value(d))
    } else {
        None
    }
}

proof fn lemma_digits_value_prefix(s: Seq<char>, k: int)
    requires
        0 <= k <= s.len(),
    ensures
        digits_value(s.take(k)) <= digits_value(s),
    decreases s.len(),
{
    if k < s.len() {
        lemma_digits_value_prefix(s.drop_last(), k);
        assert(s.drop_last().take(k) =~= s.take(k));
    } else {
        assert(s.take(k) =~= s);
    }
}

/// `str::parse` of `cs[a..b]` for an unsigned integer type whose largest value is `max`.
pub fn parse_unsigned_at(cs: &Vec<char>, a: usize, b: usize, max: usize) -> (r: Option<usize>)
    requires
        a <= b <= cs.len(),
    ensures
        r == (match parse_unsigned(cs@.subrange(a as int, b as int), max as nat) {
            Some(v) => Some(v as usize),
            None => None::<usize>,
        }),
{
    let ghost s = cs@.subrange(a as int, b as int);
    let mut k = a;
    if k < b && cs[k] == '+' {
        k = k + 1;
    }
    let ghost d = unsigned_digits(s);
    proof {
        assert(d =~= cs@.subrange(k as int, b as int));
    }
    if k == b {
        return None;
    }
    let k0 = k;
    let mut acc: u128 = 0;
    while k < b
        invariant
            a <= k0 <= k <= b <= cs.len(),
            d =~= cs@.subrange(k0 as int, b as int),
            s == cs@.subrange(a as int, b as int),
            d == unsigned_digits(s),
            forall|i: int| k0 <= i < k ==> is_digit(#[trigger] cs@[i]),
            acc == digits_value(cs@.subrange(k0 as int, k as int)),
            acc <= max,
        decreases b - k,
    {
        let c = cs[k];
        if !('0' <= c && c <= '9') {
            proof {
                assert(d[k - k0] == c);
                assert(!is_digit(d[k - k0]));
            }
            return None;
        }
        let digit = (c as u32 - '0' as u32) as u128;
        let next = acc * 10 + digit;
        proof {
            let p = cs@.subrange(k0 as int, k + 1);
            assert(p.drop_last() =~= cs@.subrange(k0 as int, k as int));
            assert(next == digits_value(p));
        }
        if next > max as u128 {
            proof {
                let p = cs@.subrange(k0 as int, k + 1);
                assert(d.take(k + 1 - k0) =~= p);
                lemma_digits_value_prefix(d, k + 1 - k0);
                assert(digits_value(d) > max);
            }
            return None;
        }
        acc = next;
        k = k + 1;
    }
    proof {
        assert forall|i: int| 0 <= i < d.len() implies is_digit(#[trigger] d[i]) by {
            assert(d[i] == cs@[k0 + i]);
        }
    }
    Some(acc as usize)
}

/// Whether `cs[a..b]` is the text `t`.
pub fn seq_equals(cs: &Vec<char>, a: usize, b: usize, t: &Vec<char>) -> (r: bool)
    requires
        a <= b <= cs.len(),
    ensures
        r == (cs@.subrange(a as int, b as int) == t@),
{
    if b - a != t.len() {
        return false;
    }
    let mut i: usize = 0;
    while i < t.len()
        invariant
            a <= b <= cs.len(),
            b - a == t.len(),
            i <= t.len(),
            forall|j: int| 0 <= j < i ==> cs@[a + j] == t@[j],
        decreases t.len() - i,
    {
        if cs[a + i] != t[i] {
            proof {
                assert(cs@.subrange(a as int, b as int)[i as int] != t@[i as int]);
            }
            return false;
        }
        i = i + 1;
    }
    proof {
        assert(cs@.subrange(a as int, b as int) =~= t@);
    }
    true
}


/// The lines `ls` joined with line feeds.
pub open spec fn join_lines(ls: Seq<Seq<char>>) -> Seq<char>
    decreases ls.len(),
{
    if ls.len() <= 1 {
        if ls.len() == 1 {
            ls[0]
        } else {
            Seq::empty()
        }
    } else {
        ls[0] + seq!['\n'] + join_lines(ls.drop_first())
    }
}

/// Law: the lines hold no line feed, and joining them with line feeds gives the
/// text back.
pub proof fn lemma_lines_split_at_line_feeds(s: Seq<char>)
    ensures
        lines(s).len() >= 1,
        forall|i: int, j: int|
            0 <= i < lines(s).len() && 0 <= j < lines(s)[i].len() ==> lines(s)[i][j] != '\n',
        join_lines(lines(s)) == s,
    decreases s.len(),
{
    lemma_line_len_bound(s);
    let l = line_len(s);
    if l < s.len() {
        let rest = s.skip((l + 1) as int);
        lemma_lines_split_at_line_feeds(rest);
        let ls = lines(s);
        assert(ls.drop_first() =~= lines(rest));
        assert forall|i: int, j: int|
            0 <= i < ls.len() && 0 <= j < ls[i].len() implies ls[i][j] != '\n' by {
            if i > 0 {
                assert(ls[i] == lines(rest)[i - 1]);
            }
        }
        assert(s =~= s.take(l as int) + seq!['\n'] + rest);
    } else {
        assert(s.take(l as int) =~= s);
    }
}

proof fn lemma_word_prefix_chars(s: Seq<char>)
    ensures
        forall|i: int| 0 <= i < word_prefix_len(s) ==> !is_ws(#[trigger] s[i]),
    decreases s.len(),
{
    lemma_word_prefix_len_bound(s);
    if s.len() > 0 && !is_ws(s[0]) {
        lemma_word_prefix_chars(s.drop_first());
        assert forall|i: int| 0 <= i < word_prefix_len(s) implies !is_ws(#[trigger] s[i]) by {
            if i > 0 {
                assert(s[i] == s.drop_first()[i - 1]);
            }
        }
    }
}

/// Law: every word is non-empty and holds no whitespace.
pub proof fn lemma_words_have_no_whitespace(s: Seq<char>)
    ensures
        forall|i: int| 0 <= i < words(s).len() ==> #[trigger] words(s)[i].len() > 0,
        forall|i: int, j: int|
            0 <= i < words(s).len() && 0 <= j < words(s)[i].len() ==> !is_ws(words(s)[i][j]),
    decreases s.len(),
{
    if s.len() == 0 {
    } else if is_ws(s[0]) {
        lemma_words_have_no_whitespace(s.drop_first());
        assert(words(s) == words(s.drop_first()));
    } else {
        let n = word_prefix_len(s);
        lemma_word_prefix_len_bound(s);
        lemma_word_prefix_chars(s);
        let rest = s.skip(n as int);
        lemma_words_have_no_whitespace(rest);
        let ws = words(s);
        assert(ws[0] == s.take(n as int));
        assert(ws.drop_first() =~= words(rest));
        assert forall|i: int| 0 <= i < ws.len() implies #[trigger] ws[i].len() > 0 by {
            if i > 0 {
                assert(ws[i] == words(rest)[i - 1]);
            }
        }
        assert forall|i: int, j: int|
            0 <= i < ws.len() && 0 <= j < ws[i].len() implies !is_ws(ws[i][j]) by {
            if i > 0 {
                assert(ws[i] == words(rest)[i - 1]);
            } else {
                assert(ws[0][j] == s[j]);
            }
        }
        assert(words(s) == ws);
    }
}

/// Law: a number reads only from decimal digits after at most one leading `+`, and
/// never beyond `max`; a text that starts with `-` never reads.
pub proof fn lemma_parse_unsigned_shape(s: Seq<char>, max: nat)
    ensures
        parse_unsigned(s, max) matches Some(v) ==> v <= max && s.len() > 0 && (is_digit(s[0])
            || s[0] == '+'),
        parse_unsigned(s, max) is Some ==> forall|i: int|
            1 <= i < s.len() ==> is_digit(#[trigger] s[i]),
        s.len() > 0 && s[0] == '-' ==> parse_unsigned(s, max) is None,
{
    let d = unsigned_digits(s);
    if parse_unsigned(s, max) is Some {
        if s[0] == '+' {
            assert forall|i: int| 1 <= i < s.len() implies is_digit(#[trigger] s[i]) by {
                assert(s[i] == d[i - 1]);
            }
        } else {
            assert(is_digit(d[0]));
        }
    }
    if s.len() > 0 && s[0] == '-' {
        assert(d[0] == '-');
    }
}

} // verus!
