//! String building blocks shared by the rest of the library: decimal
//! numerals, zero padding and parsing of unsigned decimal integers.
use vstd::prelude::*;

verus! {

/// `String::push` appends one character to the end of the string.
pub assume_specification[ String::push ](s: &mut String, ch: char)
    ensures
        final(s)@ == old(s)@.push(ch),
;

/// The decimal digit character of a value below 10.
pub open spec fn digit_char(d: nat) -> char {
    (d + 48) as char
}

/// The decimal numeral of a natural number, without sign or padding.
pub open spec fn decimal(n: nat) -> Seq<char>
    decreases n,
{
    if n < 10 {
        seq![digit_char(n)]
    } else {
        decimal(n / 10).push(digit_char(n % 10))
    }
}

/// The numeral of `n` padded with zeros on the left to at least two digits
/// (what `{:02}` writes).
pub open spec fn decimal2(n: nat) -> Seq<char> {
    if n < 10 {
        seq!['0', digit_char(n)]
    } else {
        decimal(n)
    }
}

/// Appends the decimal numeral of `n`.
pub fn push_decimal(s: &mut String, n: u64)
    ensures
        final(s)@ == old(s)@ + decimal(n as nat),
    decreases n,
{
    if n >= 10 {
        push_decimal(s, n / 10);
    }
    let d = (n % 10) as u8;
    s.push((d + 48) as char);
    proof {
        assert(final(s)@ =~= old(s)@ + decimal(n as nat));
    }
}

/// Appends the decimal numeral of `n`, padded with zeros to two digits.
pub fn push_decimal2(s: &mut String, n: u64)
    ensures
        final(s)@ == old(s)@ + decimal2(n as nat),
{
    if n < 10 {
        s.push('0');
    }
    push_decimal(s, n);
    proof {
        assert(final(s)@ =~= old(s)@ + decimal2(n as nat));
    }
}

/// The decimal numeral of `n` (what `n.to_string()` writes).
pub fn decimal_string(n: u64) -> (r: String)
    ensures
        r@ == decimal(n as nat),
{
    let mut s = String::new();
    push_decimal(&mut s, n);
    proof {
        assert(s@ =~= decimal(n as nat));
    }
    s
}

pub open spec fn is_digit(c: char) -> bool {
    '0' <= c && c <= '9'
}

pub open spec fn all_digits(s: Seq<char>) -> bool {
    forall|i: int| 0 <= i < s.len() ==> is_digit(#[trigger] s[i])
}

/// The number that a string of decimal digits spells.
pub open spec fn digits_value(s: Seq<char>) -> nat
    decreases s.len(),
{
    if s.len() == 0 {
        0
    } else {
        digits_value(s.drop_last()) * 10 + (s.last() as nat - 48) as nat
    }
}

/// The digits of an unsigned decimal numeral: an optional leading `+`
/// followed by the rest.
pub open spec fn unsigned_body(s: Seq<char>) -> Seq<char> {
    if s.len() > 0 && s[0] == '+' {
        s.drop_first()
    } else {
        s
    }
}

/// The value of an unsigned decimal numeral as the standard library reads
/// it (an optional `+`, then at least one ASCII digit), when it is at most
/// `max`.
pub open spec fn parse_unsigned(s: Seq<char>, max: nat) -> Option<nat> {
    let b = unsigned_body(s);
    if b.len() > 0 && all_digits(b) && digits_value(b) <= max {
        Some(digits_value(b))
    } else {
        None
    }
}

/// Reads an unsigned decimal numeral whose value is at most `max`; `None`
/// when the text is not such a numeral or its value exceeds `max`.
pub fn parse_decimal(s: &str, max: u64) -> (r: Option<u64>)
    ensures
        r == (match parse_unsigned(s@, max as nat) {
            Some(v) => Some(v as u64),
            None => None::<u64>,
        }),
{
    let n = s.unicode_len();
    let mut start: usize = 0;
    if n > 0 && s.get_char(0) == '+' {
        start = 1;
    }
    let ghost b = unsigned_body(s@);
    assert(b =~= s@.skip(start as int));
    if start >= n {
        return None;
    }
    let mut acc: u64 = 0;
    let mut too_big = false;
    let mut i: usize = start;
    while i < n
        invariant
            n == s@.len(),
            b == s@.skip(start as int),
            b == unsigned_body(s@),
            start <= i <= n,
            start < n,
            all_digits(b.take(i - start)),
            !too_big ==> acc == digits_value(b.take(i - start)) && acc <= max,
            too_big ==> digits_value(b.take(i - start)) > max,
        decreases n - i,
    {
        let c = s.get_char(i);
        if !('0' <= c && c <= '9') {
            assert(b[i - start] == c);
            assert(!is_digit(b[i - start]));
            assert(!all_digits(b));
            return None;
        }
        let ghost p = b.take(i - start);
        let ghost q = b.take(i + 1 - start);
        assert(q.drop_last() =~= p);
        assert(q.last() == c);
        assert(all_digits(q)) by {
            assert forall|j: int| 0 <= j < q.len() implies is_digit(#[trigger] q[j]) by {
                if j < p.len() {
                    assert(q[j] == p[j]);
                }
            }
        }
        let d = ((c as u32) - 48) as u64;
        if !too_big {
            if d > max || acc > (max - d) / 10 {
                too_big = true;
                assert(acc * 10 + d > max) by (nonlinear_arith)
                    requires
                        d > max || acc > (max - d) / 10,
                        d <= 9,
                ;
            } else {
                assert(acc * 10 + d <= max) by (nonlinear_arith)
                    requires
                        acc <= (max - d) / 10,
                        d <= max,
                ;
                acc = acc * 10 + d;
            }
        }
        i = i + 1;
    }
    assert(b.take(n - start) =~= b);
    if too_big {
        None
    } else {
        Some(acc)
    }
}


/// Character-by-character equality of two string slices.
pub fn str_equal(a: &str, b: &str) -> (r: bool)
    ensures
        r == (a@ == b@),
{
    let n = a.unicode_len();
    let m = b.unicode_len();
    if n != m {
        return false;
    }
    let mut i: usize = 0;
    while i < n
        invariant
            n == a@.len(),
            m == b@.len(),
            n == m,
            i <= n,
            forall|j: int| 0 <= j < i ==> a@[j] == b@[j],
        decreases n - i,
    {
        if a.get_char(i) != b.get_char(i) {
            return false;
        }
        i = i + 1;
    }
    assert(a@ =~= b@);
    true
}

/// Whether the character occurs in the string.
pub fn contains_char(s: &str, c: char) -> (r: bool)
    ensures
        r == s@.contains(c),
{
    let n = s.unicode_len();
    let mut i: usize = 0;
    while i < n
        invariant
            n == s@.len(),
            i <= n,
            forall|j: int| 0 <= j < i ==> s@[j] != c,
        decreases n - i,
    {
        if s.get_char(i) == c {
            assert(s@[i as int] == c);
            return true;
        }
        i = i + 1;
    }
    false
}


/// The pieces of a string between occurrences of `sep` (what
/// `split(sep)` yields): one more piece than there are separators, empty
/// pieces included.
pub open spec fn split_on(s: Seq<char>, sep: char) -> Seq<Seq<char>>
    decreases s.len(),
{
    if s.len() == 0 {
        seq![Seq::<char>::empty()]
    } else {
        let r = split_on(s.drop_last(), sep);
        if s.last() == sep {
            r.push(Seq::empty())
        } else {
            r.update(r.len() - 1, r.last().push(s.last()))
        }
    }
}

/// The pieces of a string between dots (what `split(".")` yields).
pub open spec fn dot_segments(s: Seq<char>) -> Seq<Seq<char>> {
    split_on(s, '.')
}

pub proof fn lemma_split_nonempty(s: Seq<char>, sep: char)
    ensures
        split_on(s, sep).len() >= 1,
    decreases s.len(),
{
    if s.len() > 0 {
        lemma_split_nonempty(s.drop_last(), sep);
    }
}

pub proof fn lemma_dot_segments_nonempty(s: Seq<char>)
    ensures
        dot_segments(s).len() >= 1,
{
    lemma_split_nonempty(s, '.');
}

/// Segments that are already closed by a dot never change as the string
/// grows.
proof fn lemma_split_grow(s: Seq<char>, sep: char, i: int, j: int)
    requires
        0 <= i <= j <= s.len(),
    ensures
        split_on(s.take(i), sep).len() <= split_on(s.take(j), sep).len(),
        forall|m: int|
            0 <= m < split_on(s.take(i), sep).len() - 1 ==> #[trigger] split_on(s.take(j), sep)[m]
                == split_on(s.take(i), sep)[m],
    decreases j - i,
{
    if i < j {
        lemma_split_grow(s, sep, i, j - 1);
        let t = s.take(j);
        assert(t.drop_last() =~= s.take(j - 1));
        lemma_split_nonempty(s.take(j - 1), sep);
    }
}

/// The piece of `s` with index `k` between dots, if `s` has that many
/// pieces.
pub fn dot_segment(s: &str, k: usize) -> (r: Option<String>)
    ensures
        match r {
            Some(seg) => k < dot_segments(s@).len() && seg@ == dot_segments(s@)[k as int],
            None => k >= dot_segments(s@).len(),
        },
{
    segment(s, '.', k)
}

/// The piece of `s` with index `k` between occurrences of `sep`, if `s`
/// has that many pieces.
pub fn segment(s: &str, sep: char, k: usize) -> (r: Option<String>)
    ensures
        match r {
            Some(seg) => k < split_on(s@, sep).len() && seg@ == split_on(s@, sep)[k as int],
            None => k >= split_on(s@, sep).len(),
        },
{
    let n = s.unicode_len();
    let mut seg_idx: usize = 0;
    let mut cur = String::new();
    let mut i: usize = 0;
    assert(s@.take(0) =~= Seq::<char>::empty());
    while i < n
        invariant
            n == s@.len(),
            i <= n,
            seg_idx <= k,
            split_on(s@.take(i as int), sep).len() == seg_idx + 1,
            seg_idx == k ==> cur@ == split_on(s@.take(i as int), sep).last(),
        decreases n - i,
    {
        let c = s.get_char(i);
        let ghost t = s@.take(i + 1);
        proof {
            assert(t.drop_last() =~= s@.take(i as int));
            assert(t.last() == c);
        }
        if c == sep {
            if seg_idx == k {
                proof {
                    lemma_split_grow(s@, sep, i + 1, n as int);
                    assert(s@.take(n as int) =~= s@);
                }
                return Some(cur);
            }
            seg_idx = seg_idx + 1;
            cur = String::new();
        } else if seg_idx == k {
            cur.push(c);
        }
        i = i + 1;
    }
    assert(s@.take(n as int) =~= s@);
    if seg_idx == k {
        Some(cur)
    } else {
        None
    }
}

/// Whether `p` is a prefix of `s`.
pub open spec fn is_prefix(p: Seq<char>, s: Seq<char>) -> bool {
    p.len() <= s.len() && s.take(p.len() as int) == p
}

/// Whether `s` starts with `p`.
pub fn starts_with(s: &str, p: &str) -> (r: bool)
    ensures
        r == is_prefix(p@, s@),
{
    let n = s.unicode_len();
    let m = p.unicode_len();
    if m > n {
        return false;
    }
    let mut i: usize = 0;
    while i < m
        invariant
            n == s@.len(),
            m == p@.len(),
            m <= n,
            i <= m,
            forall|j: int| 0 <= j < i ==> s@[j] == p@[j],
        decreases m - i,
    {
        if s.get_char(i) != p.get_char(i) {
            assert(s@.take(m as int)[i as int] != p@[i as int]);
            return false;
        }
        i = i + 1;
    }
    assert(s@.take(m as int) =~= p@);
    true
}


/// The character sequences of a list of strings.
pub open spec fn views(v: Seq<String>) -> Seq<Seq<char>> {
    v.map_values(|x: String| x@)
}

/// All pieces of `s` between occurrences of `sep`, in order.
pub fn split_all(s: &str, sep: char) -> (r: Vec<String>)
    ensures
        views(r@) == split_on(s@, sep),
{
    let n = s.unicode_len();
    let mut segs: Vec<String> = Vec::new();
    let mut cur = String::new();
    let mut i: usize = 0;
    assert(s@.take(0) =~= Seq::<char>::empty());
    assert(views(segs@).push(cur@) =~= split_on(s@.take(0), sep));
    while i < n
        invariant
            n == s@.len(),
            i <= n,
            views(segs@).push(cur@) == split_on(s@.take(i as int), sep),
        decreases n - i,
    {
        let c = s.get_char(i);
        let ghost t = s@.take(i + 1);
        proof {
            assert(t.drop_last() =~= s@.take(i as int));
            assert(t.last() == c);
        }
        let ghost old_segs = segs@;
        let ghost old_cur = cur@;
        if c == sep {
            let done = cur;
            segs.push(done);
            cur = String::new();
            proof {
                assert(views(segs@) =~= views(old_segs).push(old_cur));
                assert(views(segs@).push(cur@) =~= split_on(t, sep));
            }
        } else {
            cur.push(c);
            proof {
                assert(views(segs@).push(cur@) =~= views(old_segs).push(old_cur).update(
                    old_segs.len() as int,
                    old_cur.push(c),
                ));
            }
        }
        i = i + 1;
    }
    assert(s@.take(n as int) =~= s@);
    let ghost before = segs@;
    segs.push(cur);
    assert(views(segs@) =~= views(before).push(cur@));
    segs
}

/// `s` with `p` removed from its start as many times as it occurs there
/// (what `trim_start_matches(p)` gives for a non-empty `p`).
pub open spec fn strip_prefix_all(s: Seq<char>, p: Seq<char>) -> Seq<char>
    decreases s.len(),
{
    if p.len() > 0 && is_prefix(p, s) {
        strip_prefix_all(s.skip(p.len() as int), p)
    } else {
        s
    }
}

/// `s` with every trailing `c` removed (what `trim_end_matches(c)` gives).
pub open spec fn strip_suffix_char(s: Seq<char>, c: char) -> Seq<char>
    decreases s.len(),
{
    if s.len() > 0 && s.last() == c {
        strip_suffix_char(s.drop_last(), c)
    } else {
        s
    }
}

/// Removes `p` from the start of `s` as often as it occurs there.
pub fn trim_start_matches<'a>(s: &'a str, p: &str) -> (r: &'a str)
    requires
        p@.len() > 0,
    ensures
        r@ == strip_prefix_all(s@, p@),
{
    let m = p.unicode_len();
    let mut rest = s;
    while starts_with(rest, p)
        invariant
            m == p@.len(),
            m > 0,
            strip_prefix_all(rest@, p@) == strip_prefix_all(s@, p@),
        decreases rest@.len(),
    {
        let n = rest.unicode_len();
        rest = rest.substring_char(m, n);
    }
    rest
}

/// Removes every trailing `c` from `s`.
pub fn trim_end_matches_char<'a>(s: &'a str, c: char) -> (r: &'a str)
    ensures
        r@ == strip_suffix_char(s@, c),
{
    let n = s.unicode_len();
    let mut end: usize = n;
    assert(s@.take(n as int) =~= s@);
    while end > 0 && s.get_char(end - 1) == c
        invariant
            n == s@.len(),
            end <= n,
            strip_suffix_char(s@.take(end as int), c) == strip_suffix_char(s@, c),
        decreases end,
    {
        assert(s@.take(end as int).drop_last() =~= s@.take(end - 1));
        end = end - 1;
    }
    let r = s.substring_char(0, end);
    assert(r@ =~= s@.take(end as int));
    r
}

/// Whether `t` occurs in `s` as a run of consecutive characters.
pub open spec fn occurs_in(t: Seq<char>, s: Seq<char>) -> bool {
    exists|i: int| 0 <= i && i + t.len() <= s.len() && #[trigger] s.subrange(i, i + t.len()) == t
}

/// What occurs in either part of a concatenation occurs in the whole, and
/// every string occurs in itself.
pub proof fn lemma_occurs_concat(t: Seq<char>)
    ensures
        occurs_in(t, t),
        forall|a: Seq<char>, b: Seq<char>|
            (occurs_in(t, a) || occurs_in(t, b)) ==> #[trigger] occurs_in(t, a + b),
{
    let z: int = 0;
    assert(t.subrange(z, z + t.len()) =~= t);
    assert forall|a: Seq<char>, b: Seq<char>|
        (occurs_in(t, a) || occurs_in(t, b)) implies #[trigger] occurs_in(t, a + b) by {
        if occurs_in(t, a) {
            let i = choose|i: int|
                0 <= i && i + t.len() <= a.len() && #[trigger] a.subrange(i, i + t.len()) == t;
            assert((a + b).subrange(i, i + t.len()) =~= a.subrange(i, i + t.len()));
        } else {
            let i = choose|i: int|
                0 <= i && i + t.len() <= b.len() && #[trigger] b.subrange(i, i + t.len()) == t;
            let j = a.len() + i;
            assert((a + b).subrange(j, j + t.len()) =~= b.subrange(i, i + t.len()));
        }
    }
}

/// The numeral that the library writes for a number reads back as that
/// number: it is a non-empty run of digits spelling exactly `n`.
pub proof fn lemma_decimal_reads_back(n: nat)
    ensures
        decimal(n).len() > 0,
        all_digits(decimal(n)),
        digits_value(decimal(n)) == n,
        parse_unsigned(decimal(n), n) == Some(n),
    decreases n,
{
    if n >= 10 {
        lemma_decimal_reads_back(n / 10);
        let s = decimal(n / 10);
        let d = decimal(n);
        assert(d.drop_last() =~= s);
        assert(d.last() == digit_char(n % 10));
        assert(digit_char(n % 10) as nat == n % 10 + 48);
        assert(digits_value(d) == digits_value(s) * 10 + (d.last() as nat - 48) as nat);
        assert forall|i: int| 0 <= i < d.len() implies is_digit(#[trigger] d[i]) by {
            if i < s.len() {
                assert(d[i] == s[i]);
            }
        }
    } else {
        let d = decimal(n);
        assert(digit_char(n) as nat == n + 48);
        assert(d.drop_last() =~= Seq::<char>::empty());
        assert(digits_value(d) == digits_value(d.drop_last()) * 10 + (d.last() as nat - 48) as nat);
    }
    assert(decimal(n)[0] != '+');
    assert(unsigned_body(decimal(n)) == decimal(n));
}

} // verus!
