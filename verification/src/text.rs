//! Characters, trimming, splitting and decimal integers, stated over `Seq<char>`
//! and carried out on `Vec<char>` ranges.
use vstd::prelude::*;

verus! {

// ------------------------------------------------------------------
// Characters
// ------------------------------------------------------------------

/// Unicode `White_Space`, the property that `char::is_whitespace` and
/// `str::trim` go by.
pub open spec fn is_space(c: char) -> bool {
    let u = c as u32;
    ||| 9 <= u <= 13
    ||| u == 32
    ||| u == 0x85
    ||| u == 0xa0
    ||| u == 0x1680
    ||| 0x2000 <= u <= 0x200a
    ||| u == 0x2028
    ||| u == 0x2029
    ||| u == 0x202f
    ||| u == 0x205f
    ||| u == 0x3000
}

pub fn is_space_char(c: char) -> (r: bool)
    ensures
        r == is_space(c),
{
    let u = c as u32;
    (9 <= u && u <= 13) || u == 32 || u == 0x85 || u == 0xa0 || u == 0x1680 || (0x2000 <= u && u
        <= 0x200a) || u == 0x2028 || u == 0x2029 || u == 0x202f || u == 0x205f || u == 0x3000
}

/// An ASCII decimal digit.
pub open spec fn is_digit(c: char) -> bool {
    48 <= c as u32 <= 57
}

pub open spec fn digit_value(c: char) -> nat {
    (c as u32 - 48) as nat
}

pub open spec fn digit_char(d: nat) -> char {
    ((d + 48) as u32) as char
}

pub open spec fn all_digits(s: Seq<char>) -> bool {
    forall|i: int| 0 <= i < s.len() ==> is_digit(#[trigger] s[i])
}

pub open spec fn no_space(s: Seq<char>) -> bool {
    forall|i: int| 0 <= i < s.len() ==> !is_space(#[trigger] s[i])
}

pub open spec fn lacks(s: Seq<char>, c: char) -> bool {
    forall|i: int| 0 <= i < s.len() ==> #[trigger] s[i] != c
}

// ------------------------------------------------------------------
// Trimming, as `str::trim` does it
// ------------------------------------------------------------------

pub open spec fn trim_start(s: Seq<char>) -> Seq<char>
    decreases s.len(),
{
    if s.len() > 0 && is_space(s[0]) {
        trim_start(s.drop_first())
    } else {
        s
    }
}

pub open spec fn trim_end(s: Seq<char>) -> Seq<char>
    decreases s.len(),
{
    if s.len() > 0 && is_space(s.last()) {
        trim_end(s.drop_last())
    } else {
        s
    }
}

/// `s` without its leading and trailing white space.
pub open spec fn trim(s: Seq<char>) -> Seq<char> {
    trim_end(trim_start(s))
}

/// The trimmed part of `s[lo..hi]`, as a sub-range of `s`.
pub fn trim_range(s: &Vec<char>, lo: usize, hi: usize) -> (r: (usize, usize))
    requires
        lo <= hi <= s.len(),
    ensures
        lo <= r.0 <= r.1 <= hi,
        s@.subrange(r.0 as int, r.1 as int) == trim(s@.subrange(lo as int, hi as int)),
{
    let mut a = lo;
    while a < hi && is_space_char(s[a])
        invariant
            lo <= a <= hi <= s.len(),
            trim_start(s@.subrange(a as int, hi as int)) == trim_start(
                s@.subrange(lo as int, hi as int),
            ),
        decreases hi - a,
    {
        assert(s@.subrange(a as int, hi as int).drop_first() =~= s@.subrange(
            a + 1,
            hi as int,
        ));
        a = a + 1;
    }
    let mut b = hi;
    while b > a && is_space_char(s[b - 1])
        invariant
            lo <= a <= b <= hi <= s.len(),
            trim_end(s@.subrange(a as int, b as int)) == trim(s@.subrange(lo as int, hi as int)),
        decreases b - a,
    {
        assert(s@.subrange(a as int, b as int).drop_last() =~= s@.subrange(a as int, b - 1));
        b = b - 1;
    }
    (a, b)
}

pub proof fn lemma_trim_start_no_space(s: Seq<char>)
    requires
        s.len() == 0 || !is_space(s[0]),
    ensures
        trim_start(s) == s,
{
}

pub proof fn lemma_trim_end_no_space(s: Seq<char>)
    requires
        s.len() == 0 || !is_space(s.last()),
    ensures
        trim_end(s) == s,
{
}

/// A text whose first and last characters are not white space is its own trim.
pub proof fn lemma_trim_fixed(s: Seq<char>)
    requires
        s.len() == 0 || (!is_space(s[0]) && !is_space(s.last())),
    ensures
        trim(s) == s,
{
}

// ------------------------------------------------------------------
// Splitting
// ------------------------------------------------------------------

/// The pieces of `s` between occurrences of `c` (always at least one piece),
/// as `str::split` yields them.
pub open spec fn split_all(s: Seq<char>, c: char) -> Seq<Seq<char>>
    decreases s.len(),
{
    if s.len() == 0 {
        seq![Seq::empty()]
    } else {
        let init = split_all(s.drop_last(), c);
        if s.last() == c {
            init.push(Seq::empty())
        } else {
            init.update(init.len() - 1, init.last().push(s.last()))
        }
    }
}

pub proof fn lemma_split_all_nonempty(s: Seq<char>, c: char)
    ensures
        split_all(s, c).len() >= 1,
    decreases s.len(),
{
    if s.len() > 0 {
        lemma_split_all_nonempty(s.drop_last(), c);
    }
}

/// The split of `s` into the part before the first `c` and the part after it,
/// as `str::split_once` does it.
pub open spec fn split_once(s: Seq<char>, c: char) -> Option<(Seq<char>, Seq<char>)> {
    if exists|i: int| first_at(s, c, i) {
        let i = choose|i: int| first_at(s, c, i);
        Some((s.take(i), s.skip(i + 1)))
    } else {
        None
    }
}

/// `i` is the position of the first `c` in `s`.
pub open spec fn first_at(s: Seq<char>, c: char, i: int) -> bool {
    &&& 0 <= i < s.len()
    &&& s[i] == c
    &&& lacks(s.take(i), c)
}

pub proof fn lemma_first_at_unique(s: Seq<char>, c: char, i: int, j: int)
    requires
        first_at(s, c, i),
        first_at(s, c, j),
    ensures
        i == j,
{
    if i < j {
        assert(s.take(j)[i] == s[i]);
    } else if j < i {
        assert(s.take(i)[j] == s[j]);
    }
}

/// `split_once` when the position of the first `c` is known.
pub proof fn lemma_split_once_at(s: Seq<char>, c: char, i: int)
    requires
        first_at(s, c, i),
    ensures
        split_once(s, c) == Some((s.take(i), s.skip(i + 1))),
{
    let k = choose|k: int| first_at(s, c, k);
    lemma_first_at_unique(s, c, i, k);
}

/// The position of the first `c` in `s[lo..hi]`, relative to `lo`, if there is one.
pub fn find_char(s: &Vec<char>, lo: usize, hi: usize, c: char) -> (r: Option<usize>)
    requires
        lo <= hi <= s.len(),
    ensures
        match r {
            Some(i) => lo <= i < hi && first_at(s@.subrange(lo as int, hi as int), c, i - lo),
            None => lacks(s@.subrange(lo as int, hi as int), c),
        },
{
    let ghost sub = s@.subrange(lo as int, hi as int);
    let mut i: usize = lo;
    while i < hi
        invariant
            lo <= i <= hi <= s.len(),
            sub == s@.subrange(lo as int, hi as int),
            lacks(sub.take(i - lo), c),
        decreases hi - i,
    {
        if s[i] == c {
            return Some(i);
        }
        assert(lacks(sub.take(i + 1 - lo), c)) by {
            assert forall|j: int| 0 <= j < i + 1 - lo implies #[trigger] sub.take(i + 1 - lo)[j]
                != c by {
                if j < i - lo {
                    assert(sub.take(i - lo)[j] == sub[j]);
                }
            }
        }
        i = i + 1;
    }
    assert(sub.take(hi - lo) =~= sub);
    None
}

/// `split_once` on `s[lo..hi]`, answered by the position of the separator.
pub proof fn lemma_split_once_of_find(sub: Seq<char>, c: char, r: Option<int>)
    requires
        match r {
            Some(i) => first_at(sub, c, i),
            None => lacks(sub, c),
        },
    ensures
        split_once(sub, c) == match r {
            Some(i) => Some((sub.take(i), sub.skip(i + 1))),
            None => None::<(Seq<char>, Seq<char>)>,
        },
{
    match r {
        Some(i) => lemma_split_once_at(sub, c, i),
        None => {
            if exists|i: int| first_at(sub, c, i) {
                let i = choose|i: int| first_at(sub, c, i);
                assert(sub[i] == c);
            }
        },
    }
}

// ------------------------------------------------------------------
// Decimal integers, as `str::parse` reads them and `{}` writes them
// ------------------------------------------------------------------

/// The value of a string of decimal digits.
pub open spec fn digits_value(s: Seq<char>) -> nat
    decreases s.len(),
{
    if s.len() == 0 {
        0
    } else {
        digits_value(s.drop_last()) * 10 + digit_value(s.last())
    }
}

/// What `str::parse` gives for an integer type whose values are `lo..=hi`:
/// an optional `+` (or `-` where the type is signed), then one or more ASCII
/// digits whose value lies in the range.
pub open spec fn parse_int(s: Seq<char>, lo: int, hi: int) -> Option<int> {
    if s.len() == 0 {
        None
    } else {
        let neg = s[0] == '-' && lo < 0;
        let d = if s[0] == '+' || neg {
            s.drop_first()
        } else {
            s
        };
        if d.len() == 0 || !all_digits(d) {
            None
        } else {
            let v = if neg {
                -digits_value(d)
            } else {
                digits_value(d) as int
            };
            if lo <= v <= hi {
                Some(v)
            } else {
                None
            }
        }
    }
}

/// The decimal digits of `n`, as `{}` writes them.
pub open spec fn decimal(n: nat) -> Seq<char>
    decreases n,
{
    if n < 10 {
        seq![digit_char(n)]
    } else {
        decimal(n / 10).push(digit_char(n % 10))
    }
}

/// `i` written in decimal with a leading `-` when negative, as `{}` writes it.
pub open spec fn int_text(i: int) -> Seq<char> {
    if i < 0 {
        seq!['-'] + decimal((-i) as nat)
    } else {
        decimal(i as nat)
    }
}

pub proof fn lemma_digit_char(d: nat)
    requires
        d < 10,
    ensures
        is_digit(digit_char(d)),
        digit_value(digit_char(d)) == d,
        !is_space(digit_char(d)),
        digit_char(d) != '-',
        digit_char(d) != '+',
        digit_char(d) != ',',
        digit_char(d) != '\n',
        digit_char(d) != '=',
{
}

pub proof fn lemma_decimal(n: nat)
    ensures
        decimal(n).len() >= 1,
        all_digits(decimal(n)),
        no_space(decimal(n)),
        lacks(decimal(n), ','),
        lacks(decimal(n), '\n'),
        lacks(decimal(n), '='),
        digits_value(decimal(n)) == n,
    decreases n,
{
    if n < 10 {
        lemma_digit_char(n);
        assert(decimal(n).drop_last() =~= Seq::<char>::empty());
        assert(digits_value(Seq::<char>::empty()) == 0);
    } else {
        lemma_decimal(n / 10);
        lemma_digit_char(n % 10);
        let p = decimal(n / 10);
        let d = decimal(n);
        assert(d.drop_last() =~= p);
        assert(digits_value(d) == digits_value(p) * 10 + digit_value(d.last()));
        assert((n / 10) * 10 + n % 10 == n);
        assert forall|i: int| 0 <= i < d.len() implies is_digit(#[trigger] d[i]) && !is_space(d[i])
            && d[i] != ',' && d[i] != '\n' && d[i] != '=' by {
            if i < p.len() {
                assert(d[i] == p[i]);
            }
        }
    }
}

/// Reading back what `{}` wrote gives the same integer.
pub proof fn lemma_parse_int_text(i: int, lo: int, hi: int)
    requires
        lo <= i <= hi,
    ensures
        parse_int(int_text(i), lo, hi) == Some(i),
        no_space(int_text(i)),
        lacks(int_text(i), ','),
        lacks(int_text(i), '\n'),
        lacks(int_text(i), '='),
        int_text(i).len() >= 1,
{
    if i < 0 {
        let m = (-i) as nat;
        lemma_decimal(m);
        let t = int_text(i);
        assert(t.drop_first() =~= decimal(m));
        assert forall|k: int| 0 <= k < t.len() implies !is_space(#[trigger] t[k]) && t[k] != ','
            && t[k] != '\n' && t[k] != '=' by {
            if k > 0 {
                assert(t[k] == decimal(m)[k - 1]);
            }
        }
    } else {
        lemma_decimal(i as nat);
        lemma_digit_char(digit_value(decimal(i as nat)[0]));
        assert(decimal(i as nat)[0] != '+' && decimal(i as nat)[0] != '-') by {
            assert(is_digit(decimal(i as nat)[0]));
        }
    }
}

proof fn lemma_digits_value_prefix(s: Seq<char>, j: int)
    requires
        0 <= j <= s.len(),
    ensures
        digits_value(s.take(j)) <= digits_value(s),
    decreases s.len(),
{
    if j < s.len() {
        lemma_digits_value_prefix(s.drop_last(), j);
        assert(s.drop_last().take(j) =~= s.take(j));
    } else {
        assert(s.take(j) =~= s);
    }
}

/// The digits of `s[lo..hi]` read as a number no greater than `limit`;
/// `None` when the range is empty, holds a non-digit or reads above `limit`.
fn parse_digits(s: &Vec<char>, lo: usize, hi: usize, limit: u64) -> (r: Option<u64>)
    requires
        lo <= hi <= s.len(),
    ensures
        ({
            let d = s@.subrange(lo as int, hi as int);
            match r {
                Some(v) => d.len() > 0 && all_digits(d) && v == digits_value(d) && v <= limit,
                None => d.len() == 0 || !all_digits(d) || digits_value(d) > limit,
            }
        }),
{
    let ghost d = s@.subrange(lo as int, hi as int);
    if lo == hi {
        return None;
    }
    let mut v: u64 = 0;
    let mut i: usize = lo;
    while i < hi
        invariant
            lo <= i <= hi <= s.len(),
            d == s@.subrange(lo as int, hi as int),
            all_digits(d.take(i - lo)),
            v == digits_value(d.take(i - lo)),
            v <= limit,
        decreases hi - i,
    {
        let c = s[i];
        let u = c as u32;
        if u < 48 || u > 57 {
            assert(d[i - lo] == c);
            return None;
        }
        let nv: u128 = (v as u128) * 10 + ((u - 48) as u128);
        assert(d.take(i + 1 - lo).drop_last() =~= d.take(i - lo));
        assert(d.take(i + 1 - lo).last() == c);
        if nv > limit as u128 {
            proof {
                if all_digits(d) {
                    lemma_digits_value_prefix(d, i + 1 - lo);
                }
            }
            return None;
        }
        assert(all_digits(d.take(i + 1 - lo))) by {
            assert forall|k: int| 0 <= k < i + 1 - lo implies is_digit(
                #[trigger] d.take(i + 1 - lo)[k],
            ) by {
                if k < i - lo {
                    assert(d.take(i + 1 - lo)[k] == d.take(i - lo)[k]);
                }
            }
        }
        v = nv as u64;
        i = i + 1;
    }
    assert(d.take(hi - lo) =~= d);
    Some(v)
}

/// `s[lo..hi]` read as an integer in `-min_mag..=max`, as `str::parse` reads it
/// for the integer type with that range.
fn parse_integer(s: &Vec<char>, lo: usize, hi: usize, min_mag: u64, max: u64) -> (r: Option<i128>)
    requires
        lo <= hi <= s.len(),
    ensures
        match r {
            Some(v) => parse_int(s@.subrange(lo as int, hi as int), -min_mag, max as int) == Some(
                v as int,
            ),
            None => parse_int(s@.subrange(lo as int, hi as int), -min_mag, max as int) is None,
        },
{
    let ghost t = s@.subrange(lo as int, hi as int);
    if lo == hi {
        return None;
    }
    let c = s[lo];
    assert(t[0] == c);
    assert(t.drop_first() =~= s@.subrange(lo + 1, hi as int));
    if c == '+' {
        match parse_digits(s, lo + 1, hi, max) {
            Some(v) => Some(v as i128),
            None => None,
        }
    } else if c == '-' && min_mag > 0 {
        match parse_digits(s, lo + 1, hi, min_mag) {
            Some(v) => Some(-(v as i128)),
            None => None,
        }
    } else {
        match parse_digits(s, lo, hi, max) {
            Some(v) => Some(v as i128),
            None => None,
        }
    }
}

pub fn parse_u8(s: &Vec<char>, lo: usize, hi: usize) -> (r: Option<u8>)
    requires
        lo <= hi <= s.len(),
    ensures
        match r {
            Some(v) => parse_int(s@.subrange(lo as int, hi as int), 0, 255) == Some(v as int),
            None => parse_int(s@.subrange(lo as int, hi as int), 0, 255) is None,
        },
{
    match parse_integer(s, lo, hi, 0, 255) {
        Some(v) => Some(v as u8),
        None => None,
    }
}

pub fn parse_i32(s: &Vec<char>, lo: usize, hi: usize) -> (r: Option<i32>)
    requires
        lo <= hi <= s.len(),
    ensures
        match r {
            Some(v) => parse_int(s@.subrange(lo as int, hi as int), i32::MIN as int, i32::MAX as int)
                == Some(v as int),
            None => parse_int(
                s@.subrange(lo as int, hi as int),
                i32::MIN as int,
                i32::MAX as int,
            ) is None,
        },
{
    match parse_integer(s, lo, hi, 0x8000_0000, 0x7fff_ffff) {
        Some(v) => Some(v as i32),
        None => None,
    }
}

pub fn parse_usize(s: &Vec<char>, lo: usize, hi: usize) -> (r: Option<usize>)
    requires
        lo <= hi <= s.len(),
    ensures
        match r {
            Some(v) => parse_int(s@.subrange(lo as int, hi as int), 0, usize::MAX as int) == Some(
                v as int,
            ),
            None => parse_int(s@.subrange(lo as int, hi as int), 0, usize::MAX as int) is None,
        },
{
    match parse_integer(s, lo, hi, 0, usize::MAX as u64) {
        Some(v) => Some(v as usize),
        None => None,
    }
}

// ------------------------------------------------------------------
// Writing text
// ------------------------------------------------------------------

/// Appends the decimal digits of `n`.
pub fn push_decimal(out: &mut Vec<char>, n: u64)
    ensures
        final(out)@ == old(out)@ + decimal(n as nat),
    decreases n,
{
    if n >= 10 {
        push_decimal(out, n / 10);
    }
    let d = (n % 10) as u8;
    out.push((d + 48) as char);
    proof {
        if n >= 10 {
            assert(old(out)@ + decimal(n as nat) =~= old(out)@ + decimal((n / 10) as nat) + seq![
                digit_char((n % 10) as nat),
            ]);
        }
    }
}

/// Appends `i` in decimal, with a leading `-` when negative.
pub fn push_int(out: &mut Vec<char>, i: i64)
    ensures
        final(out)@ == old(out)@ + int_text(i as int),
{
    if i < 0 {
        out.push('-');
        let m = (-(i as i128)) as u64;
        push_decimal(out, m);
        assert(final(out)@ =~= old(out)@ + int_text(i as int));
    } else {
        push_decimal(out, i as u64);
    }
}

/// Appends the characters of `s`.
pub fn push_str(out: &mut Vec<char>, s: &str)
    ensures
        final(out)@ == old(out)@ + s@,
{
    broadcast use vstd::string::group_string_axioms;

    let ghost start = out@;
    for c in it: s.chars()
        invariant
            it.seq() == s@,
            out@ == start + s@.take(it.index() as int),
    {
        out.push(c);
        assert(start + s@.take(it.index() + 1) =~= (start + s@.take(it.index() as int)).push(c));
    }
    assert(s@.take(s@.len() as int) =~= s@);
}

/// The characters of `s`.
pub fn chars_of(s: &str) -> (v: Vec<char>)
    ensures
        v@ == s@,
{
    let mut v: Vec<char> = Vec::new();
    push_str(&mut v, s);
    assert(v@ =~= s@);
    v
}

/// `String` holding exactly the characters of `v`, in order: makes it with
/// `String::from_iter`, which the claim is about.
#[verifier::external_body]
fn string_from(v: Vec<char>) -> (r: String)
    ensures
        r@ == v@,
{
    String::from_iter(v)
}

/// `String` holding `s[lo..hi]`.
pub(crate) fn string_of(s: &Vec<char>, lo: usize, hi: usize) -> (r: String)
    requires
        lo <= hi <= s.len(),
    ensures
        r@ == s@.subrange(lo as int, hi as int),
{
    let mut v: Vec<char> = Vec::new();
    let mut i: usize = lo;
    while i < hi
        invariant
            lo <= i <= hi <= s.len(),
            v@ == s@.subrange(lo as int, i as int),
        decreases hi - i,
    {
        v.push(s[i]);
        i = i + 1;
        assert(v@ =~= s@.subrange(lo as int, i as int));
    }
    string_from(v)
}

} // verus!
