//! Character-level helpers shared by the request builders and the parsers:
//! searching and splitting on a separator, and decimal rendering of numbers.

use vstd::prelude::*;
use vstd::string::*;
use vstd::utf8::encode_utf8_decode_utf8;

verus! {

/// Position of the first `c` in `s`, or `s.len()` when `s` holds none.
pub open spec fn first_index(s: Seq<char>, c: char) -> int
    decreases s.len(),
{
    if s.len() == 0 {
        0
    } else if s[0] == c {
        0
    } else {
        1 + first_index(s.drop_first(), c)
    }
}

/// The pieces of `s` between occurrences of `sep`, in order. A sequence
/// without `sep` is one piece (the empty sequence included), and `n`
/// separators always give `n + 1` pieces, some of which may be empty.
pub open spec fn split(s: Seq<char>, sep: char) -> Seq<Seq<char>>
    decreases s.len(),
{
    let i = first_index(s, sep);
    if 0 <= i < s.len() {
        seq![s.take(i)] + split(s.skip(i + 1), sep)
    } else {
        seq![s]
    }
}

/// `first_index` stays within the sequence, stops on `c`, and passes no `c`.
pub proof fn lemma_first_index(s: Seq<char>, c: char)
    ensures
        0 <= first_index(s, c) <= s.len(),
        first_index(s, c) < s.len() ==> s[first_index(s, c)] == c,
        forall|j: int| 0 <= j < first_index(s, c) ==> s[j] != c,
    decreases s.len(),
{
    if s.len() > 0 && s[0] != c {
        let t = s.drop_first();
        lemma_first_index(t, c);
        assert forall|j: int| 0 <= j < first_index(s, c) implies s[j] != c by {
            if j > 0 {
                assert(s[j] == t[j - 1]);
            }
        }
    }
}

/// A position `k` that no `c` precedes, and that is the end of `s` or holds
/// `c`, is the first index of `c`.
pub proof fn lemma_first_index_is(s: Seq<char>, c: char, k: int)
    requires
        0 <= k <= s.len(),
        forall|j: int| 0 <= j < k ==> s[j] != c,
        k < s.len() ==> s[k] == c,
    ensures
        first_index(s, c) == k,
{
    lemma_first_index(s, c);
    let f = first_index(s, c);
    if f < k {
        assert(s[f] == c);
    } else if f > k {
        assert(s[k] != c);
    }
}

/// The first piece of a split is what precedes the first separator.
pub proof fn lemma_split_first(s: Seq<char>, sep: char)
    ensures
        split(s, sep).len() >= 1,
        split(s, sep)[0] == s.take(first_index(s, sep)),
        split(s, sep).len() >= 2 <==> first_index(s, sep) < s.len(),
        first_index(s, sep) < s.len() ==> split(s, sep)[1] == split(
            s.skip(first_index(s, sep) + 1),
            sep,
        )[0],
    decreases s.len(),
{
    lemma_first_index(s, sep);
    let i = first_index(s, sep);
    if i >= s.len() {
        assert(s.take(i) == s);
    } else {
        lemma_split_first(s.skip(i + 1), sep);
    }
}

/// A sequence without the separator splits into itself alone.
pub proof fn lemma_split_without(s: Seq<char>, sep: char)
    requires
        forall|j: int| 0 <= j < s.len() ==> s[j] != sep,
    ensures
        split(s, sep) == seq![s],
{
    lemma_first_index_is(s, sep, s.len() as int);
}

/// Splitting `a + [sep] + b`, where `a` holds no separator, gives `a` and
/// then the pieces of `b`.
pub proof fn lemma_split_at_first(a: Seq<char>, b: Seq<char>, sep: char)
    requires
        forall|j: int| 0 <= j < a.len() ==> a[j] != sep,
    ensures
        split(a + seq![sep] + b, sep) == seq![a] + split(b, sep),
{
    let s = a + seq![sep] + b;
    lemma_first_index_is(s, sep, a.len() as int);
    assert(s.take(a.len() as int) == a);
    assert(s.skip(a.len() as int + 1) == b);
}

/// The characters of `s`, one by one.
pub fn chars_of(s: &str) -> (out: Vec<char>)
    ensures
        out@ == s@,
{
    let mut out: Vec<char> = Vec::new();
    for c in it: s.chars()
        invariant
            it.seq() == s@,
            out@ == s@.take(it.index()),
    {
        out.push(c);
    }
    out
}

/// Searches `v` from position `from` for `c`: the distance to the first
/// occurrence, as `first_index` counts it on the rest of the sequence.
pub fn find_char(v: &Vec<char>, from: usize, c: char) -> (at: usize)
    requires
        from <= v.len(),
    ensures
        from <= at <= v.len(),
        at - from == first_index(v@.skip(from as int), c),
{
    let mut i: usize = from;
    while i < v.len() && v[i] != c
        invariant
            from <= i <= v.len(),
            forall|j: int| from <= j < i ==> v@[j] != c,
        decreases v.len() - i,
    {
        i = i + 1;
    }
    proof {
        lemma_first_index_is(v@.skip(from as int), c, i - from);
    }
    i
}

/// Whether two string slices hold the same characters. The slices are
/// compared byte by byte: UTF-8 gives equal text equal bytes, and no two
/// texts the same bytes.
pub fn str_eq(a: &str, b: &str) -> (same: bool)
    ensures
        same == (a@ == b@),
{
    let x = a.as_bytes();
    let y = b.as_bytes();
    proof {
        encode_utf8_decode_utf8(a@);
        encode_utf8_decode_utf8(b@);
    }
    if x.len() != y.len() {
        return false;
    }
    let mut i: usize = 0;
    while i < x.len()
        invariant
            x@ == a.spec_bytes(),
            y@ == b.spec_bytes(),
            x@.len() == y@.len(),
            i <= x@.len(),
            forall|j: int| 0 <= j < i ==> x@[j] == y@[j],
        decreases x.len() - i,
    {
        if x[i] != y[i] {
            return false;
        }
        i = i + 1;
    }
    assert(x@ =~= y@);
    true
}

/// Whether `c` is one of the ten ASCII digits.
pub open spec fn is_digit(c: char) -> bool {
    '0' <= c && c <= '9'
}

/// The length of the run of digits that `s` ends with.
pub open spec fn digits_at_end(s: Seq<char>) -> nat
    decreases s.len(),
{
    if s.len() == 0 || !is_digit(s.last()) {
        0
    } else {
        1 + digits_at_end(s.drop_last())
    }
}

/// Whether the run of digits that `s` ends with has a `.` right before it.
/// With no digits at the end this asks whether `s` ends with `.`.
pub open spec fn point_before_digits(s: Seq<char>) -> bool {
    let before = s.len() - digits_at_end(s) - 1;
    before >= 0 && s[before] == '.'
}

/// Whether no `.` in `s` is followed by a run of more than `limit` digits:
/// no prefix of `s` ends with a `.` and more than `limit` digits.
pub open spec fn fractions_within(s: Seq<char>, limit: nat) -> bool {
    forall|i: int|
        0 <= i <= s.len() && point_before_digits(#[trigger] s.take(i)) ==> digits_at_end(
            s.take(i),
        ) <= limit
}

/// The run of digits at the end is no longer than the sequence.
pub proof fn lemma_digits_at_end_bound(s: Seq<char>)
    ensures
        digits_at_end(s) <= s.len(),
    decreases s.len(),
{
    if s.len() > 0 && is_digit(s.last()) {
        lemma_digits_at_end_bound(s.drop_last());
    }
}

/// Whether no `.` in `text` is followed by a run of more than `limit`
/// ASCII digits.
pub fn fractions_fit(text: &str, limit: usize) -> (fit: bool)
    ensures
        fit == fractions_within(text@, limit as nat),
{
    // `run` counts the digits since the last `.`, while `after_point` says
    // that nothing but digits has come since.
    let mut after_point = false;
    let mut run: usize = 0;
    for c in it: text.chars()
        invariant
            it.seq() == text@,
            after_point == point_before_digits(text@.take(it.index())),
            after_point ==> run == digits_at_end(text@.take(it.index())) && run <= limit,
            forall|i: int|
                0 <= i <= it.index() && point_before_digits(#[trigger] text@.take(i))
                    ==> digits_at_end(text@.take(i)) <= limit,
    {
        proof {
            let k = it.index();
            let before = text@.take(k);
            let with_c = text@.take(k + 1);
            assert(with_c.drop_last() =~= before);
            assert(with_c.last() == c);
            lemma_digits_at_end_bound(before);
            if is_digit(c) {
                assert(digits_at_end(with_c) == digits_at_end(before) + 1);
                let at = before.len() - digits_at_end(before) - 1;
                if at >= 0 {
                    assert(with_c[at] == before[at]);
                }
                assert(point_before_digits(with_c) == point_before_digits(before));
            } else {
                assert(digits_at_end(with_c) == 0);
                assert(point_before_digits(with_c) == (c == '.'));
            }
        }
        if c >= '0' && c <= '9' {
            if after_point {
                if run == limit {
                    return false;
                }
                run = run + 1;
            }
        } else {
            after_point = c == '.';
            run = 0;
        }
    }
    true
}

/// The decimal digit for a value below ten.
pub open spec fn digit(d: nat) -> char {
    if d == 0 {
        '0'
    } else if d == 1 {
        '1'
    } else if d == 2 {
        '2'
    } else if d == 3 {
        '3'
    } else if d == 4 {
        '4'
    } else if d == 5 {
        '5'
    } else if d == 6 {
        '6'
    } else if d == 7 {
        '7'
    } else if d == 8 {
        '8'
    } else {
        '9'
    }
}

/// Decimal notation of `n`, most significant digit first, without leading
/// zeros (zero itself is "0").
pub open spec fn decimal(n: nat) -> Seq<char>
    decreases n,
{
    if n < 10 {
        seq![digit(n)]
    } else {
        decimal(n / 10).push(digit(n % 10))
    }
}

fn digit_str(d: u64) -> (s: &'static str)
    requires
        d < 10,
    ensures
        s@ == seq![digit(d as nat)],
{
    proof {
        reveal_strlit("0");
        reveal_strlit("1");
        reveal_strlit("2");
        reveal_strlit("3");
        reveal_strlit("4");
        reveal_strlit("5");
        reveal_strlit("6");
        reveal_strlit("7");
        reveal_strlit("8");
        reveal_strlit("9");
    }
    let s = if d == 0 {
        "0"
    } else if d == 1 {
        "1"
    } else if d == 2 {
        "2"
    } else if d == 3 {
        "3"
    } else if d == 4 {
        "4"
    } else if d == 5 {
        "5"
    } else if d == 6 {
        "6"
    } else if d == 7 {
        "7"
    } else if d == 8 {
        "8"
    } else {
        "9"
    };
    assert(s@ =~= seq![digit(d as nat)]);
    s
}

/// Renders `n` in decimal.
pub fn decimal_string(n: u64) -> (s: String)
    ensures
        s@ == decimal(n as nat),
    decreases n,
{
    if n < 10 {
        String::from_str(digit_str(n))
    } else {
        let mut s = decimal_string(n / 10);
        s.append(digit_str(n % 10));
        assert(s@ =~= decimal(n as nat));
        s
    }
}

} // verus!
