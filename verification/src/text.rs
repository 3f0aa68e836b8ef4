//! Small verified text helpers over `str` and `String`.

use vstd::prelude::*;
use vstd::std_specs::iter::IteratorSpec;

verus! {

/// `<str as PartialEq>::eq`: character-wise equality of two strings.
/// Trusted: string equality compares the texts, which is equality of the views.
#[verifier::external_body]
pub(crate) fn str_equal(a: &str, b: &str) -> (res: bool)
    ensures
        res == (a@ == b@),
{
    a == b
}

/// `String::push`: appends one character.
/// Trusted: the documentation states that the character is added at the end.
#[verifier::external_body]
pub(crate) fn push_char(s: &mut String, c: char)
    ensures
        final(s)@ == old(s)@.push(c),
{
    s.push(c)
}

/// Concatenation of two strings into a new one.
pub fn concat(a: &str, b: &str) -> (res: String)
    ensures
        res@ == a@ + b@,
{
    let mut s = a.to_owned();
    s.append(b);
    s
}

/// The decimal digit character for `d` in `0..10`.
pub open spec fn decimal_digit(d: int) -> char {
    if d == 0 {
        '0'
    } else if d == 1 {
        '1'
    } else if d == 2 {
        '2'
    } else if d == 3 {
        '3'
    } else if d == 4 {
        '4'
    } else if d == 5 {
        '5'
    } else if d == 6 {
        '6'
    } else if d == 7 {
        '7'
    } else if d == 8 {
        '8'
    } else {
        '9'
    }
}

/// The decimal digits of a natural number, most significant first, without
/// leading zeros.
pub open spec fn digits_spec(n: nat) -> Seq<char>
    decreases n,
{
    if n < 10 {
        seq![decimal_digit(n as int)]
    } else {
        digits_spec(n / 10).push(decimal_digit((n % 10) as int))
    }
}

/// The decimal text of an integer, with a leading `-` when it is negative (what
/// `Display` writes for Rust's integers).
pub open spec fn decimal_spec(n: int) -> Seq<char> {
    if n < 0 {
        seq!['-'] + digits_spec((-n) as nat)
    } else {
        digits_spec(n as nat)
    }
}

/// Whether a character is one of the ASCII digits `0`..`9`.
pub open spec fn is_ascii_digit(c: char) -> bool {
    '0' <= c && c <= '9'
}

/// The number that a string of ASCII digits denotes in base ten, most
/// significant digit first (the empty string denotes 0).
pub open spec fn numeral_value(s: Seq<char>) -> int
    decreases s.len(),
{
    if s.len() == 0 {
        0
    } else {
        numeral_value(s.drop_last()) * 10 + (s.last() as int - '0' as int)
    }
}

/// A decimal numeral as `Display` writes one for a natural number: at least one
/// ASCII digit, and no leading zero unless the numeral is `0` itself.
pub open spec fn is_canonical_numeral(s: Seq<char>) -> bool {
    &&& s.len() > 0
    &&& forall|i: int| 0 <= i < s.len() ==> is_ascii_digit(#[trigger] s[i])
    &&& (s.len() > 1 ==> s[0] != '0')
}

/// Each digit character stands for its value.
proof fn lemma_decimal_digit(d: int)
    requires
        0 <= d < 10,
    ensures
        is_ascii_digit(decimal_digit(d)),
        decimal_digit(d) as int - '0' as int == d,
{
}

/// The digits of `n` are a canonical numeral that reads back as `n`.
pub proof fn lemma_digits_read_back(n: nat)
    ensures
        is_canonical_numeral(digits_spec(n)),
        numeral_value(digits_spec(n)) == n,
        n > 0 ==> digits_spec(n)[0] != '0',
    decreases n,
{
    if n < 10 {
        lemma_decimal_digit(n as int);
        let s = digits_spec(n);
        assert(s.drop_last() =~= Seq::<char>::empty());
        assert(numeral_value(s.drop_last()) == 0);
        assert(numeral_value(s) == numeral_value(s.drop_last()) * 10 + (s.last() as int - '0' as int));
    } else {
        let q = n / 10;
        let d = (n % 10) as int;
        lemma_digits_read_back(q);
        lemma_decimal_digit(d);
        let s = digits_spec(n);
        assert(s.drop_last() =~= digits_spec(q));
        assert(s[0] == digits_spec(q)[0]);
        assert forall|i: int| 0 <= i < s.len() implies is_ascii_digit(#[trigger] s[i]) by {
            if i < s.len() - 1 {
                assert(s[i] == digits_spec(q)[i]);
            }
        }
        assert(s.last() == decimal_digit(d));
        assert(numeral_value(s) == numeral_value(s.drop_last()) * 10 + (s.last() as int - '0' as int));
        assert(n == q * 10 + d);
    }
}

/// The decimal text of an integer reads back as that integer: for `n >= 0` it
/// is the canonical numeral of `n`, and for `n < 0` a `-` followed by the
/// canonical numeral of `-n`.
pub proof fn lemma_decimal_read_back(n: int)
    ensures
        n >= 0 ==> is_canonical_numeral(decimal_spec(n)) && numeral_value(decimal_spec(n)) == n,
        n < 0 ==> decimal_spec(n)[0] == '-' && is_canonical_numeral(decimal_spec(n).drop_first())
            && numeral_value(decimal_spec(n).drop_first()) == -n,
{
    if n >= 0 {
        lemma_digits_read_back(n as nat);
    } else {
        lemma_digits_read_back((-n) as nat);
        assert(decimal_spec(n).drop_first() =~= digits_spec((-n) as nat));
    }
}

/// Two integers with the same decimal text are equal.
pub proof fn lemma_decimal_injective(a: int, b: int)
    requires
        decimal_spec(a) == decimal_spec(b),
    ensures
        a == b,
{
    lemma_decimal_read_back(a);
    lemma_decimal_read_back(b);
    if a >= 0 && b < 0 {
        lemma_digits_read_back(a as nat);
        assert(is_ascii_digit(decimal_spec(a)[0]));
    } else if a < 0 && b >= 0 {
        lemma_digits_read_back(b as nat);
        assert(is_ascii_digit(decimal_spec(b)[0]));
    }
}

fn digit_char(d: u64) -> (res: char)
    requires
        d < 10,
    ensures
        res == decimal_digit(d as int),
{
    if d == 0 {
        '0'
    } else if d == 1 {
        '1'
    } else if d == 2 {
        '2'
    } else if d == 3 {
        '3'
    } else if d == 4 {
        '4'
    } else if d == 5 {
        '5'
    } else if d == 6 {
        '6'
    } else if d == 7 {
        '7'
    } else if d == 8 {
        '8'
    } else {
        '9'
    }
}

/// The decimal text of a 32-bit integer.
pub fn decimal_text(n: i32) -> (res: String)
    ensures
        res@ == decimal_spec(n as int),
        n >= 0 ==> is_canonical_numeral(res@) && numeral_value(res@) == n,
        n < 0 ==> res@[0] == '-' && is_canonical_numeral(res@.drop_first()) && numeral_value(
            res@.drop_first(),
        ) == -n,
{
    proof {
        lemma_decimal_read_back(n as int);
    }
    let magnitude: u64 = if n < 0 {
        (-(n as i64)) as u64
    } else {
        n as u64
    };
    let mut rest: u64 = magnitude;
    let mut tail: Vec<char> = Vec::new();
    while rest >= 10
        invariant
            digits_spec(magnitude as nat) == digits_spec(rest as nat) + tail@,
        decreases rest,
    {
        let d = digit_char(rest % 10);
        tail.insert(0, d);
        let ghost before = rest;
        rest = rest / 10;
        assert(digits_spec(before as nat) == digits_spec(rest as nat).push(decimal_digit((before % 10) as int)));
        assert(digits_spec(rest as nat).push(decimal_digit((before % 10) as int)) + tail@.subrange(1, tail@.len() as int)
            =~= digits_spec(rest as nat) + tail@);
    }
    let mut chars: Vec<char> = Vec::new();
    if n < 0 {
        chars.push('-');
    }
    chars.push(digit_char(rest));
    let mut i: usize = 0;
    while i < tail.len()
        invariant
            i <= tail@.len(),
            n < 0 ==> chars@ == seq!['-', decimal_digit(rest as int)] + tail@.take(i as int),
            n >= 0 ==> chars@ == seq![decimal_digit(rest as int)] + tail@.take(i as int),
        decreases tail@.len() - i,
    {
        chars.push(tail[i]);
        i = i + 1;
        proof {
            if n < 0 {
                assert(chars@ =~= seq!['-', decimal_digit(rest as int)] + tail@.take(i as int));
            } else {
                assert(chars@ =~= seq![decimal_digit(rest as int)] + tail@.take(i as int));
            }
        }
    }
    assert(tail@.take(tail@.len() as int) =~= tail@);
    assert(digits_spec(rest as nat) == seq![decimal_digit(rest as int)]);
    if n < 0 {
        assert(chars@ =~= seq!['-'] + (seq![decimal_digit(rest as int)] + tail@));
    }
    from_chars(chars.as_slice())
}

/// A fresh `String` holding the given text.
pub fn owned(s: &str) -> (res: String)
    ensures
        res@ == s@,
{
    s.to_owned()
}

/// The characters of a string, in order.
pub fn to_chars(s: &str) -> (res: Vec<char>)
    ensures
        res@ == s@,
{
    broadcast use vstd::string::group_string_axioms;

    let mut it = s.chars();
    let mut out: Vec<char> = Vec::new();
    loop
        invariant
            out@ + it.remaining() == s@,
            it.obeys_prophetic_iter_laws(),
            it.decrease() is Some,
        decreases it.decrease()->0,
    {
        let ghost before = it;
        match it.next() {
            Some(c) => {
                assert(before.remaining().len() > 0);
                out.push(c);
                assert(out@ + it.remaining() =~= s@);
            },
            None => {
                assert(before.remaining().len() == 0);
                assert(out@ =~= s@);
                return out;
            },
        }
    }
}

/// A string made of the given characters.
pub fn from_chars(chars: &[char]) -> (res: String)
    ensures
        res@ == chars@,
{
    let mut out = String::new();
    let mut i: usize = 0;
    while i < chars.len()
        invariant
            i <= chars@.len(),
            out@ == chars@.take(i as int),
        decreases chars@.len() - i,
    {
        push_char(&mut out, chars[i]);
        i = i + 1;
        assert(out@ =~= chars@.take(i as int));
    }
    assert(chars@.take(chars@.len() as int) =~= chars@);
    out
}

/// Whether a character has the Unicode `White_Space` property (the characters
/// that `str::trim` removes).
pub open spec fn is_whitespace(c: char) -> bool {
    let u = c as u32;
    ||| 0x9 <= u <= 0xD
    ||| u == 0x20
    ||| u == 0x85
    ||| u == 0xA0
    ||| u == 0x1680
    ||| 0x2000 <= u <= 0x200A
    ||| u == 0x2028
    ||| u == 0x2029
    ||| u == 0x202F
    ||| u == 0x205F
    ||| u == 0x3000
}

/// Computes `is_whitespace`.
pub fn whitespace(c: char) -> (res: bool)
    ensures
        res == is_whitespace(c),
{
    let u = c as u32;
    (0x9 <= u && u <= 0xD) || u == 0x20 || u == 0x85 || u == 0xA0 || u == 0x1680 || (0x2000 <= u
        && u <= 0x200A) || u == 0x2028 || u == 0x2029 || u == 0x202F || u == 0x205F || u == 0x3000
}

/// `s` without its leading white space.
pub open spec fn trim_start_ws(s: Seq<char>) -> Seq<char>
    decreases s.len(),
{
    if s.len() > 0 && is_whitespace(s[0]) {
        trim_start_ws(s.subrange(1, s.len() as int))
    } else {
        s
    }
}

/// `s` without its trailing white space.
pub open spec fn trim_end_ws(s: Seq<char>) -> Seq<char>
    decreases s.len(),
{
    if s.len() > 0 && is_whitespace(s.last()) {
        trim_end_ws(s.drop_last())
    } else {
        s
    }
}

/// `s` without leading and trailing white space (what `str::trim` computes).
pub open spec fn trim_spec(s: Seq<char>) -> Seq<char> {
    trim_end_ws(trim_start_ws(s))
}

/// Trimming the start drops a run of white space and nothing else: what is left
/// is a suffix of `s` that does not start with white space.
pub proof fn lemma_trim_start_meaning(s: Seq<char>)
    ensures
        exists|lo: int|
            #![trigger s.subrange(lo, s.len() as int)]
            0 <= lo <= s.len() && trim_start_ws(s) == s.subrange(lo, s.len() as int) && (forall|i: int|
                0 <= i < lo ==> is_whitespace(#[trigger] s[i])),
        trim_start_ws(s).len() > 0 ==> !is_whitespace(trim_start_ws(s)[0]),
    decreases s.len(),
{
    if s.len() > 0 && is_whitespace(s[0]) {
        let t = s.subrange(1, s.len() as int);
        lemma_trim_start_meaning(t);
        let lo = choose|lo: int|
            #![trigger t.subrange(lo, t.len() as int)]
            0 <= lo <= t.len() && trim_start_ws(t) == t.subrange(lo, t.len() as int) && (forall|i: int|
                0 <= i < lo ==> is_whitespace(#[trigger] t[i]));
        assert(t.subrange(lo, t.len() as int) =~= s.subrange(lo + 1, s.len() as int));
        assert forall|i: int| 0 <= i < lo + 1 implies is_whitespace(#[trigger] s[i]) by {
            if i > 0 {
                assert(s[i] == t[i - 1]);
            }
        }
    } else {
        assert(s.subrange(0, s.len() as int) =~= s);
    }
}

/// Trimming the end drops a run of white space and nothing else: what is left
/// is a prefix of `s` that does not end with white space.
pub proof fn lemma_trim_end_ws_meaning(s: Seq<char>)
    ensures
        trim_end_ws(s).len() <= s.len(),
        trim_end_ws(s) == s.subrange(0, trim_end_ws(s).len() as int),
        forall|i: int| trim_end_ws(s).len() <= i < s.len() ==> is_whitespace(#[trigger] s[i]),
        trim_end_ws(s).len() > 0 ==> !is_whitespace(trim_end_ws(s).last()),
    decreases s.len(),
{
    if s.len() > 0 && is_whitespace(s.last()) {
        let t = s.drop_last();
        lemma_trim_end_ws_meaning(t);
        assert(t.subrange(0, trim_end_ws(t).len() as int) =~= s.subrange(0, trim_end_ws(t).len() as int));
        assert forall|i: int| trim_end_ws(s).len() <= i < s.len() implies is_whitespace(#[trigger] s[i]) by {
            if i < s.len() - 1 {
                assert(s[i] == t[i]);
            }
        }
    } else {
        assert(s.subrange(0, s.len() as int) =~= s);
    }
}

/// Trimming keeps a contiguous piece of the text: everything before and after
/// it is white space, and the piece neither starts nor ends with white space.
pub proof fn lemma_trim_meaning(s: Seq<char>)
    ensures
        exists|lo: int, hi: int|
            #![trigger s.subrange(lo, hi)]
            0 <= lo <= hi <= s.len() && trim_spec(s) == s.subrange(lo, hi) && (forall|i: int|
                0 <= i < lo ==> is_whitespace(#[trigger] s[i])) && (forall|i: int|
                hi <= i < s.len() ==> is_whitespace(#[trigger] s[i])),
        trim_spec(s).len() > 0 ==> !is_whitespace(trim_spec(s)[0]) && !is_whitespace(
            trim_spec(s).last(),
        ),
{
    lemma_trim_start_meaning(s);
    let u = trim_start_ws(s);
    lemma_trim_end_ws_meaning(u);
    let lo = choose|lo: int|
        #![trigger s.subrange(lo, s.len() as int)]
        0 <= lo <= s.len() && trim_start_ws(s) == s.subrange(lo, s.len() as int) && (forall|i: int|
            0 <= i < lo ==> is_whitespace(#[trigger] s[i]));
    let m = trim_end_ws(u).len() as int;
    let hi = lo + m;
    assert(s.subrange(lo, hi) =~= u.subrange(0, m));
    assert forall|i: int| hi <= i < s.len() implies is_whitespace(#[trigger] s[i]) by {
        assert(s[i] == u[i - lo]);
    }
    if trim_spec(s).len() > 0 {
        assert(trim_spec(s)[0] == u[0]);
    }
}

/// The characters of `s` without leading and trailing white space.
pub fn trim_chars(s: &[char]) -> (res: Vec<char>)
    ensures
        res@ == trim_spec(s@),
{
    let n = s.len();
    let mut lo: usize = 0;
    assert(s@.subrange(0, n as int) =~= s@);
    while lo < n && whitespace(s[lo])
        invariant
            lo <= n,
            n == s@.len(),
            trim_start_ws(s@) == trim_start_ws(s@.subrange(lo as int, n as int)),
        decreases n - lo,
    {
        assert(s@.subrange(lo as int, n as int).subrange(1, (n - lo) as int) =~= s@.subrange(
            lo + 1,
            n as int,
        ));
        lo = lo + 1;
    }
    let mut hi: usize = n;
    while hi > lo && whitespace(s[hi - 1])
        invariant
            lo <= hi <= n,
            n == s@.len(),
            trim_spec(s@) == trim_end_ws(s@.subrange(lo as int, hi as int)),
        decreases hi,
    {
        assert(s@.subrange(lo as int, hi as int).drop_last() =~= s@.subrange(lo as int, hi - 1));
        hi = hi - 1;
    }
    let mut out: Vec<char> = Vec::new();
    let mut i: usize = lo;
    while i < hi
        invariant
            lo <= i <= hi,
            hi <= n,
            n == s@.len(),
            out@ == s@.subrange(lo as int, i as int),
        decreases hi - i,
    {
        out.push(s[i]);
        i = i + 1;
        assert(out@ =~= s@.subrange(lo as int, i as int));
    }
    out
}

/// The pieces of `s` between occurrences of `sep`, in order (what `str::split`
/// yields for a character): one more piece than there are separators.
pub open spec fn split_spec(s: Seq<char>, sep: char) -> Seq<Seq<char>>
    decreases s.len(),
{
    if s.len() == 0 {
        seq![Seq::empty()]
    } else {
        let p = split_spec(s.drop_last(), sep);
        if s.last() == sep {
            p.push(Seq::empty())
        } else {
            p.update(p.len() - 1, p.last().push(s.last()))
        }
    }
}

/// The pieces joined with `sep` between each two.
pub open spec fn join_spec(pieces: Seq<Seq<char>>, sep: char) -> Seq<char>
    decreases pieces.len(),
{
    if pieces.len() == 0 {
        Seq::empty()
    } else if pieces.len() == 1 {
        pieces[0]
    } else {
        join_spec(pieces.drop_last(), sep).push(sep) + pieces.last()
    }
}

/// Splitting cuts the text at every separator and nowhere else: the pieces
/// hold no separator and, joined with it again, give the text back.
pub proof fn lemma_split_meaning(s: Seq<char>, sep: char)
    ensures
        split_spec(s, sep).len() > 0,
        join_spec(split_spec(s, sep), sep) == s,
        forall|k: int, i: int|
            0 <= k < split_spec(s, sep).len() && 0 <= i < split_spec(s, sep)[k].len() ==> #[trigger] split_spec(
                s,
                sep,
            )[k][i] != sep,
    decreases s.len(),
{
    if s.len() > 0 {
        let t = s.drop_last();
        lemma_split_meaning(t, sep);
        let p = split_spec(t, sep);
        if s.last() == sep {
            let q = p.push(Seq::<char>::empty());
            assert(q.drop_last() =~= p);
            assert(join_spec(q, sep) == join_spec(p, sep).push(sep) + Seq::<char>::empty());
            assert(join_spec(p, sep).push(sep) + Seq::<char>::empty() =~= s);
            assert forall|k: int, i: int| 0 <= k < q.len() && 0 <= i < q[k].len() implies #[trigger] q[k][i]
                != sep by {
                assert(q[k] == p[k]);
            }
        } else {
            let q = p.update(p.len() - 1, p.last().push(s.last()));
            assert forall|k: int, i: int| 0 <= k < q.len() && 0 <= i < q[k].len() implies #[trigger] q[k][i]
                != sep by {
                if k < p.len() - 1 {
                    assert(q[k] == p[k]);
                } else if i < p.last().len() {
                    assert(q[k][i] == p[k][i]);
                }
            }
            if p.len() == 1 {
                assert(join_spec(q, sep) == q[0]);
                assert(q[0] =~= s);
            } else {
                assert(q.drop_last() =~= p.drop_last());
                assert(join_spec(p, sep) == join_spec(p.drop_last(), sep).push(sep) + p.last());
                assert(join_spec(q, sep) == join_spec(p.drop_last(), sep).push(sep) + q.last());
                assert(join_spec(p.drop_last(), sep).push(sep) + p.last().push(s.last()) =~= (join_spec(
                    p.drop_last(),
                    sep,
                ).push(sep) + p.last()).push(s.last()));
                assert(t.push(s.last()) =~= s);
            }
        }
    } else {
        assert(join_spec(seq![Seq::<char>::empty()], sep) == Seq::<char>::empty());
    }
}

/// The pieces, each trimmed, without those that are empty after trimming.
pub open spec fn trimmed_nonempty(pieces: Seq<Seq<char>>) -> Seq<Seq<char>>
    decreases pieces.len(),
{
    if pieces.len() == 0 {
        Seq::empty()
    } else {
        let rest = trimmed_nonempty(pieces.drop_last());
        let t = trim_spec(pieces.last());
        if t.len() == 0 {
            rest
        } else {
            rest.push(t)
        }
    }
}

/// What is kept after trimming is non-empty, neither starts nor ends with white
/// space, and holds no character that none of the pieces holds.
pub proof fn lemma_trimmed_nonempty_meaning(pieces: Seq<Seq<char>>, c: char)
    requires
        forall|k: int, i: int|
            0 <= k < pieces.len() && 0 <= i < pieces[k].len() ==> #[trigger] pieces[k][i] != c,
    ensures
        trimmed_nonempty(pieces).len() <= pieces.len(),
        forall|k: int|
            0 <= k < trimmed_nonempty(pieces).len() ==> {
                let t = #[trigger] trimmed_nonempty(pieces)[k];
                &&& t.len() > 0
                &&& !is_whitespace(t[0])
                &&& !is_whitespace(t.last())
                &&& forall|i: int| 0 <= i < t.len() ==> t[i] != c
            },
    decreases pieces.len(),
{
    if pieces.len() > 0 {
        let init = pieces.drop_last();
        assert forall|k: int, i: int| 0 <= k < init.len() && 0 <= i < init[k].len() implies #[trigger] init[k][i]
            != c by {
            assert(init[k] == pieces[k]);
        }
        lemma_trimmed_nonempty_meaning(init, c);
        let last = pieces.last();
        lemma_trim_meaning(last);
        let t = trim_spec(last);
        let (lo, hi) = choose|lo: int, hi: int|
            #![trigger last.subrange(lo, hi)]
            0 <= lo <= hi <= last.len() && trim_spec(last) == last.subrange(lo, hi) && (forall|i: int|
                0 <= i < lo ==> is_whitespace(#[trigger] last[i])) && (forall|i: int|
                hi <= i < last.len() ==> is_whitespace(#[trigger] last[i]));
        assert forall|i: int| 0 <= i < t.len() implies t[i] != c by {
            assert(t[i] == last[lo + i]);
            assert(pieces[pieces.len() - 1][lo + i] != c);
        }
    }
}

/// `s.split(sep).map(str::trim).filter(|p| !p.is_empty())`, collected.
pub fn split_trimmed_nonempty(s: &str, sep: char) -> (res: Vec<String>)
    ensures
        res@.len() == trimmed_nonempty(split_spec(s@, sep)).len(),
        forall|k: int|
            0 <= k < res@.len() ==> (#[trigger] res@[k])@ == trimmed_nonempty(split_spec(s@, sep))[k],
{
    let chars = to_chars(s);
    let mut out: Vec<String> = Vec::new();
    let ghost mut outv: Seq<Seq<char>> = Seq::empty();
    let mut cur: Vec<char> = Vec::new();
    let mut i: usize = 0;
    proof {
        assert(chars@.take(0) =~= Seq::<char>::empty());
    }
    while i < chars.len()
        invariant
            i <= chars@.len(),
            chars@ == s@,
            split_spec(chars@.take(i as int), sep).len() >= 1,
            cur@ == split_spec(chars@.take(i as int), sep).last(),
            outv == trimmed_nonempty(split_spec(chars@.take(i as int), sep).drop_last()),
            out@.len() == outv.len(),
            forall|k: int| 0 <= k < out@.len() ==> (#[trigger] out@[k])@ == outv[k],
        decreases chars@.len() - i,
    {
        let c = chars[i];
        let ghost pre = chars@.take(i as int);
        let ghost p = split_spec(pre, sep);
        proof {
            assert(chars@.take(i + 1).drop_last() =~= pre);
            assert(chars@.take(i + 1).last() == c);
        }
        if c == sep {
            let t = trim_chars(cur.as_slice());
            proof {
                assert(p.push(Seq::empty()).drop_last() =~= p);
                assert(p.drop_last().push(p.last()) =~= p);
                assert(p =~= p.drop_last().push(p.last()));
            }
            if t.len() > 0 {
                let piece = from_chars(t.as_slice());
                out.push(piece);
                proof {
                    outv = outv.push(t@);
                }
            }
            cur = Vec::new();
        } else {
            cur.push(c);
            proof {
                assert(p.update(p.len() - 1, p.last().push(c)).drop_last() =~= p.drop_last());
            }
        }
        i = i + 1;
    }
    let t = trim_chars(cur.as_slice());
    proof {
        assert(chars@.take(i as int) =~= s@);
        let p = split_spec(s@, sep);
        assert(p =~= p.drop_last().push(p.last()));
    }
    if t.len() > 0 {
        let piece = from_chars(t.as_slice());
        out.push(piece);
        proof {
            outv = outv.push(t@);
        }
    }
    out
}

/// `s` with every non-overlapping occurrence of `pattern`, scanning left to
/// right, replaced by `replacement` (what `str::replace` computes).
pub open spec fn replace_spec(s: Seq<char>, pattern: Seq<char>, replacement: Seq<char>) -> Seq<char>
    recommends
        pattern.len() > 0,
    decreases s.len(),
{
    if s.len() == 0 || pattern.len() == 0 {
        s
    } else if pattern.len() <= s.len() && s.subrange(0, pattern.len() as int) == pattern {
        replacement + replace_spec(s.subrange(pattern.len() as int, s.len() as int), pattern, replacement)
    } else {
        seq![s[0]] + replace_spec(s.drop_first(), pattern, replacement)
    }
}

/// Whether `pattern` occurs in `s` starting at position `i`.
pub open spec fn occurs_at_spec(s: Seq<char>, pattern: Seq<char>, i: int) -> bool {
    0 <= i && i + pattern.len() <= s.len() && s.subrange(i, i + pattern.len()) == pattern
}

/// A text in which the pattern does not occur is left as it is.
pub proof fn lemma_replace_without_occurrence(s: Seq<char>, pattern: Seq<char>, replacement: Seq<char>)
    requires
        pattern.len() > 0,
        forall|i: int| 0 <= i < s.len() ==> !#[trigger] occurs_at_spec(s, pattern, i),
    ensures
        replace_spec(s, pattern, replacement) == s,
    decreases s.len(),
{
    if s.len() > 0 {
        assert(!occurs_at_spec(s, pattern, 0));
        let t = s.drop_first();
        assert forall|i: int| 0 <= i < t.len() implies !#[trigger] occurs_at_spec(t, pattern, i) by {
            assert(!occurs_at_spec(s, pattern, i + 1));
            if i + pattern.len() <= t.len() {
                assert(t.subrange(i, i + pattern.len()) =~= s.subrange(i + 1, i + 1 + pattern.len()));
            }
        }
        lemma_replace_without_occurrence(t, pattern, replacement);
        assert(seq![s[0]] + t =~= s);
    }
}

/// An occurrence of the pattern at the start is replaced, and replacing goes on
/// after it.
pub proof fn lemma_replace_at_start(pattern: Seq<char>, rest: Seq<char>, replacement: Seq<char>)
    requires
        pattern.len() > 0,
    ensures
        replace_spec(pattern + rest, pattern, replacement) == replacement + replace_spec(
            rest,
            pattern,
            replacement,
        ),
{
    let s = pattern + rest;
    assert(s.subrange(0, pattern.len() as int) =~= pattern);
    assert(s.subrange(pattern.len() as int, s.len() as int) =~= rest);
}

/// A prefix in which no character is the first of the pattern is kept, and
/// replacing goes on after it.
pub proof fn lemma_replace_keeps_prefix(
    prefix: Seq<char>,
    rest: Seq<char>,
    pattern: Seq<char>,
    replacement: Seq<char>,
)
    requires
        pattern.len() > 0,
        forall|i: int| 0 <= i < prefix.len() ==> #[trigger] prefix[i] != pattern[0],
    ensures
        replace_spec(prefix + rest, pattern, replacement) == prefix + replace_spec(
            rest,
            pattern,
            replacement,
        ),
    decreases prefix.len(),
{
    if prefix.len() > 0 {
        let s = prefix + rest;
        assert(s[0] == prefix[0]);
        if pattern.len() <= s.len() {
            assert(s.subrange(0, pattern.len() as int)[0] == s[0]);
        }
        let p1 = prefix.drop_first();
        assert forall|i: int| 0 <= i < p1.len() implies #[trigger] p1[i] != pattern[0] by {
            assert(p1[i] == prefix[i + 1]);
        }
        lemma_replace_keeps_prefix(p1, rest, pattern, replacement);
        assert(s.drop_first() =~= p1 + rest);
        assert(seq![prefix[0]] + (p1 + replace_spec(rest, pattern, replacement)) =~= prefix
            + replace_spec(rest, pattern, replacement));
    } else {
        assert(prefix + rest =~= rest);
        assert(prefix + replace_spec(rest, pattern, replacement) =~= replace_spec(rest, pattern, replacement));
    }
}

/// Every occurrence is replaced: a text made of two pieces in which the
/// pattern's first character does not appear, with the pattern before and
/// after the middle one, becomes the replacement around the middle piece, and
/// likewise the pieces in between stay.
pub proof fn lemma_replace_every_occurrence(
    a: Seq<char>,
    b: Seq<char>,
    c: Seq<char>,
    pattern: Seq<char>,
    replacement: Seq<char>,
)
    requires
        pattern.len() > 0,
        forall|i: int| 0 <= i < a.len() ==> #[trigger] a[i] != pattern[0],
        forall|i: int| 0 <= i < b.len() ==> #[trigger] b[i] != pattern[0],
        forall|i: int| 0 <= i < c.len() ==> #[trigger] c[i] != pattern[0],
    ensures
        replace_spec(a + pattern + b + pattern + c, pattern, replacement) == a + replacement + b
            + replacement + c,
{
    let p = pattern;
    let r = replacement;
    lemma_replace_keeps_prefix(c, Seq::<char>::empty(), p, r);
    assert(c + Seq::<char>::empty() =~= c);
    assert(replace_spec(Seq::<char>::empty(), p, r) == Seq::<char>::empty());
    assert(c + Seq::<char>::empty() =~= c);
    lemma_replace_at_start(p, c, r);
    lemma_replace_keeps_prefix(b, p + c, p, r);
    lemma_replace_at_start(p, b + p + c, r);
    assert(p + (b + p + c) =~= p + b + p + c);
    assert(b + (p + c) =~= b + p + c);
    lemma_replace_keeps_prefix(a, p + b + p + c, p, r);
    assert(a + (p + b + p + c) =~= a + p + b + p + c);
    assert(a + (r + (b + (r + c))) =~= a + r + b + r + c);
}

/// Whether `pattern` occurs in `s` at position `i`.
fn occurs_at(s: &Vec<char>, pattern: &Vec<char>, i: usize) -> (res: bool)
    requires
        i <= s@.len(),
    ensures
        res == (i + pattern@.len() <= s@.len() && s@.subrange(i as int, i + pattern@.len())
            == pattern@),
{
    if pattern.len() > s.len() - i {
        return false;
    }
    let sl = s.len();
    let mut k: usize = 0;
    while k < pattern.len()
        invariant
            sl == s@.len(),
            i + pattern@.len() <= s@.len(),
            k <= pattern@.len(),
            forall|m: int| 0 <= m < k ==> s@[i + m] == pattern@[m],
        decreases pattern@.len() - k,
    {
        if s[i + k] != pattern[k] {
            assert(s@.subrange(i as int, i + pattern@.len())[k as int] != pattern@[k as int]);
            return false;
        }
        k = k + 1;
    }
    assert(s@.subrange(i as int, i + pattern@.len()) =~= pattern@);
    true
}

/// Replaces every non-overlapping occurrence of `pattern`, left to right.
pub fn replace_all(s: &str, pattern: &str, replacement: &str) -> (res: String)
    requires
        pattern@.len() > 0,
    ensures
        res@ == replace_spec(s@, pattern@, replacement@),
{
    let text = to_chars(s);
    let pat = to_chars(pattern);
    let rep = to_chars(replacement);
    let mut out: Vec<char> = Vec::new();
    let mut i: usize = 0;
    assert(text@.subrange(0, text@.len() as int) =~= text@);
    while i < text.len()
        invariant
            i <= text@.len(),
            pat@.len() > 0,
            out@ + replace_spec(text@.subrange(i as int, text@.len() as int), pat@, rep@)
                == replace_spec(text@, pat@, rep@),
        decreases text@.len() - i,
    {
        let ghost rest = text@.subrange(i as int, text@.len() as int);
        if occurs_at(&text, &pat, i) {
            assert(rest.subrange(0, pat@.len() as int) =~= text@.subrange(i as int, i + pat@.len()));
            assert(rest.subrange(pat@.len() as int, rest.len() as int) =~= text@.subrange(
                i + pat@.len(),
                text@.len() as int,
            ));
            let mut k: usize = 0;
            let ghost out0 = out@;
            while k < rep.len()
                invariant
                    k <= rep@.len(),
                    out@ == out0 + rep@.take(k as int),
                decreases rep@.len() - k,
            {
                out.push(rep[k]);
                k = k + 1;
                assert(out@ =~= out0 + rep@.take(k as int));
            }
            assert(rep@.take(rep@.len() as int) =~= rep@);
            assert(out@ + replace_spec(text@.subrange(i + pat@.len(), text@.len() as int), pat@, rep@)
                =~= out0 + replace_spec(rest, pat@, rep@));
            i = i + pat.len();
        } else {
            proof {
                if pat@.len() <= rest.len() {
                    assert(rest.subrange(0, pat@.len() as int) =~= text@.subrange(i as int, i + pat@.len()));
                }
            }
            assert(rest.drop_first() =~= text@.subrange(i + 1, text@.len() as int));
            let ghost out0 = out@;
            out.push(text[i]);
            assert(out@ + replace_spec(text@.subrange(i + 1, text@.len() as int), pat@, rep@)
                =~= out0 + replace_spec(rest, pat@, rep@));
            i = i + 1;
        }
    }
    assert(text@.subrange(i as int, text@.len() as int) =~= Seq::<char>::empty());
    assert(out@ =~= replace_spec(text@, pat@, rep@));
    from_chars(out.as_slice())
}

/// `s` without the copies of `c` at its end.
pub open spec fn trim_end_spec(s: Seq<char>, c: char) -> Seq<char>
    decreases s.len(),
{
    if s.len() > 0 && s.last() == c {
        trim_end_spec(s.drop_last(), c)
    } else {
        s
    }
}

/// `n` copies of `c`.
pub open spec fn copies(c: char, n: nat) -> Seq<char> {
    Seq::new(n, |i: int| c)
}

/// Trimming a character from the end drops a run of that character and nothing
/// else: the text is what is left followed by copies of it, and what is left
/// does not end with it.
pub proof fn lemma_trim_end_meaning(s: Seq<char>, c: char)
    ensures
        trim_end_spec(s, c).len() <= s.len(),
        s == trim_end_spec(s, c) + copies(c, (s.len() - trim_end_spec(s, c).len()) as nat),
        trim_end_spec(s, c).len() > 0 ==> trim_end_spec(s, c).last() != c,
    decreases s.len(),
{
    if s.len() > 0 && s.last() == c {
        let t = s.drop_last();
        lemma_trim_end_meaning(t, c);
        let k = (t.len() - trim_end_spec(t, c).len()) as nat;
        assert(copies(c, k).push(c) =~= copies(c, k + 1));
        assert(s =~= t.push(c));
        assert(trim_end_spec(t, c) + copies(c, k + 1) =~= (trim_end_spec(t, c) + copies(c, k)).push(c));
    } else {
        assert(s + copies(c, 0) =~= s);
    }
}

/// `str::trim_end_matches` with a single character.
pub fn trim_end_char(s: &str, c: char) -> (res: String)
    ensures
        res@ == trim_end_spec(s@, c),
{
    let text = to_chars(s);
    let mut n: usize = text.len();
    assert(text@.take(n as int) =~= text@);
    while n > 0 && text[n - 1] == c
        invariant
            n <= text@.len(),
            trim_end_spec(text@.take(n as int), c) == trim_end_spec(text@, c),
        decreases n,
    {
        assert(text@.take(n as int).drop_last() =~= text@.take(n - 1));
        n = n - 1;
    }
    assert(trim_end_spec(text@.take(n as int), c) == text@.take(n as int));
    from_chars(vstd::slice::slice_subrange(text.as_slice(), 0, n))
}

} // verus!
