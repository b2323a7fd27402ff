//! Small verified text utilities: decimal rendering of integers, prefix and
//! suffix tests on strings, segment splitting of secret names, and sequence
//! joining, together with the one trusted conversion from characters to a
//! `String`.

use vstd::prelude::*;

verus! {

/// The character for one decimal digit.
pub open spec fn digit_char(d: nat) -> char {
    if d == 0 {
        '0'
    } else if d == 1 {
        '1'
    } else if d == 2 {
        '2'
    } else if d == 3 {
        '3'
    } else if d == 4 {
        '4'
    } else if d == 5 {
        '5'
    } else if d == 6 {
        '6'
    } else if d == 7 {
        '7'
    } else if d == 8 {
        '8'
    } else {
        '9'
    }
}

/// The decimal digits of a natural number, most significant first.
pub open spec fn dec_digits(n: nat) -> Seq<char>
    decreases n,
{
    if n < 10 {
        seq![digit_char(n)]
    } else {
        dec_digits(n / 10) + seq![digit_char(n % 10)]
    }
}

/// The decimal rendering of a signed number: a minus sign, if negative,
/// followed by the digits of its magnitude.
pub open spec fn i64_dec(n: int) -> Seq<char> {
    if n < 0 {
        seq!['-'] + dec_digits((-n) as nat)
    } else {
        dec_digits(n as nat)
    }
}

/// The given sequences, joined by the separator.
pub open spec fn join_with(items: Seq<Seq<char>>, sep: Seq<char>) -> Seq<char>
    decreases items.len(),
{
    if items.len() == 0 {
        Seq::empty()
    } else if items.len() == 1 {
        items[0]
    } else {
        items[0] + sep + join_with(items.drop_first(), sep)
    }
}

/// `p` is a prefix of `s`.
pub open spec fn starts_with_spec(s: Seq<char>, p: Seq<char>) -> bool {
    p.len() <= s.len() && (forall|i: int| 0 <= i < p.len() ==> s[i] == p[i])
}

/// `x` is a suffix of `s`.
pub open spec fn ends_with_spec(s: Seq<char>, x: Seq<char>) -> bool {
    x.len() <= s.len() && (forall|i: int| 0 <= i < x.len() ==> s[s.len() - x.len() + i] == x[i])
}

/// Whether the sequence contains a `/`.
pub open spec fn has_slash(s: Seq<char>) -> bool {
    exists|i: int| 0 <= i < s.len() && s[i] == '/'
}

/// Everything after the first `/` (meaningful only when one exists).
pub open spec fn after_slash(s: Seq<char>) -> Seq<char>
    decreases s.len(),
{
    if s.len() == 0 {
        s
    } else if s[0] == '/' {
        s.drop_first()
    } else {
        after_slash(s.drop_first())
    }
}

/// What remains of a split at the first `/`: everything after it, or the
/// whole sequence when there is none.
pub open spec fn split_rest(s: Seq<char>) -> Seq<char> {
    if has_slash(s) {
        after_slash(s)
    } else {
        s
    }
}

/// The last piece of a split into at most three `/`-separated segments:
/// everything after the second `/`, degrading to the whole input when there
/// are fewer separators.
pub open spec fn third_segment(s: Seq<char>) -> Seq<char> {
    split_rest(split_rest(s))
}

fn digit_char_exec(d: u64) -> (r: char)
    requires
        d < 10,
    ensures
        r == digit_char(d as nat),
{
    if d == 0 {
        '0'
    } else if d == 1 {
        '1'
    } else if d == 2 {
        '2'
    } else if d == 3 {
        '3'
    } else if d == 4 {
        '4'
    } else if d == 5 {
        '5'
    } else if d == 6 {
        '6'
    } else if d == 7 {
        '7'
    } else if d == 8 {
        '8'
    } else {
        '9'
    }
}

/// Appends the decimal digits of `x` to `out`.
pub fn push_dec_u64(out: &mut Vec<char>, x: u64)
    ensures
        final(out)@ == old(out)@ + dec_digits(x as nat),
    decreases x,
{
    if x < 10 {
        out.push(digit_char_exec(x));
    } else {
        push_dec_u64(out, x / 10);
        out.push(digit_char_exec(x % 10));
    }
}

/// Appends the decimal rendering of `x`, sign included, to `out`.
pub fn push_dec_i64(out: &mut Vec<char>, x: i64)
    ensures
        final(out)@ == old(out)@ + i64_dec(x as int),
{
    if x >= 0 {
        push_dec_u64(out, x as u64);
    } else {
        out.push('-');
        let mag: u64 = ((-(x + 1)) as u64) + 1;
        assert(mag as nat == (-(x as int)) as nat);
        push_dec_u64(out, mag);
        assert(final(out)@ == old(out)@ + (seq!['-'] + dec_digits((-(x as int)) as nat)));
    }
}

/// Appends the characters of `s` to `out`.
pub fn append_str_chars(out: &mut Vec<char>, s: &str)
    ensures
        final(out)@ == old(out)@ + s@,
{
    let n = s.unicode_len();
    let mut i: usize = 0;
    while i < n
        invariant
            i <= n,
            n as nat == s@.len(),
            out@ == old(out)@ + s@.subrange(0, i as int),
        decreases n - i,
    {
        let c = s.get_char(i);
        out.push(c);
        proof {
            assert(s@.subrange(0, (i + 1) as int) =~= s@.subrange(0, i as int) + seq![s@[i as int]]);
        }
        i = i + 1;
    }
    proof {
        assert(s@.subrange(0, n as int) =~= s@);
    }
}

/// Relies on `String`'s `FromIterator<char>` implementation: a string
/// collected from characters holds exactly those characters, in order.
#[verifier::external_body]
pub(crate) fn chars_to_string(v: &Vec<char>) -> (r: String)
    ensures
        r@ == v@,
{
    v.iter().collect()
}

/// Whether `p` is a prefix of `s`.
pub fn str_starts_with(s: &str, p: &str) -> (r: bool)
    ensures
        r == starts_with_spec(s@, p@),
{
    let sn = s.unicode_len();
    let pn = p.unicode_len();
    if pn > sn {
        return false;
    }
    let mut i: usize = 0;
    while i < pn
        invariant
            i <= pn,
            pn as nat == p@.len(),
            sn as nat == s@.len(),
            pn <= sn,
            forall|j: int| 0 <= j < i ==> s@[j] == p@[j],
        decreases pn - i,
    {
        if s.get_char(i) != p.get_char(i) {
            return false;
        }
        i = i + 1;
    }
    true
}

/// Whether `x` is a suffix of `s`.
pub fn str_ends_with(s: &str, x: &str) -> (r: bool)
    ensures
        r == ends_with_spec(s@, x@),
{
    let sn = s.unicode_len();
    let xn = x.unicode_len();
    if xn > sn {
        return false;
    }
    let off = sn - xn;
    let mut i: usize = 0;
    while i < xn
        invariant
            i <= xn,
            xn as nat == x@.len(),
            sn as nat == s@.len(),
            xn <= sn,
            off == sn - xn,
            forall|j: int| 0 <= j < i ==> s@[off + j] == x@[j],
        decreases xn - i,
    {
        if s.get_char(off + i) != x.get_char(i) {
            return false;
        }
        i = i + 1;
    }
    true
}

proof fn lemma_after_slash_at(s: Seq<char>, i: int)
    requires
        0 <= i < s.len(),
        s[i] == '/',
        forall|j: int| 0 <= j < i ==> s[j] != '/',
    ensures
        after_slash(s) == s.subrange(i + 1, s.len() as int),
    decreases i,
{
    if i == 0 {
        assert(after_slash(s) =~= s.subrange(1, s.len() as int));
    } else {
        lemma_after_slash_at(s.drop_first(), i - 1);
        assert(s.drop_first().subrange(i, s.len() - 1) =~= s.subrange(i + 1, s.len() as int));
    }
}

/// What remains of `s` after a split at its first `/`: the part after the
/// separator, or all of `s` when it has none.
pub fn tail_after_slash(s: &str) -> (r: &str)
    ensures
        r@ == split_rest(s@),
{
    let n = s.unicode_len();
    let mut i: usize = 0;
    while i < n
        invariant
            i <= n,
            n as nat == s@.len(),
            forall|j: int| 0 <= j < i ==> s@[j] != '/',
        decreases n - i,
    {
        if s.get_char(i) == '/' {
            let r = s.substring_char(i + 1, n);
            proof {
                lemma_after_slash_at(s@, i as int);
            }
            return r;
        }
        i = i + 1;
    }
    s
}

} // verus!
