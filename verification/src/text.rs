//! Small text helpers: decimal rendering of integers.

use vstd::prelude::*;

verus! {

/// The decimal digit character for `d`.
pub open spec fn digit_char(d: nat) -> char {
    (48 + d) as char
}

/// The decimal representation of `n`, without leading zeros.
pub open spec fn decimal(n: nat) -> Seq<char>
    decreases n,
{
    if n < 10 {
        seq![digit_char(n)]
    } else {
        decimal(n / 10) + seq![digit_char(n % 10)]
    }
}

/// `String::from_iter` over characters: a string of exactly these
/// characters.
#[verifier::external_body]
pub(crate) fn string_from_chars(chars: &Vec<char>) -> (s: String)
    ensures
        s@ == chars@,
{
    chars.iter().collect()
}

/// Renders `n` in decimal.
pub fn decimal_string(n: u64) -> (s: String)
    ensures
        s@ == decimal(n as nat),
{
    let mut reversed: Vec<char> = Vec::new();
    if n == 0 {
        reversed.push('0');
        assert(reversed@.reverse() =~= decimal(0));
    } else {
        let mut rest = n;
        // Collect digits least significant first.
        while rest > 0
            invariant
                decimal(n as nat) == decimal_prefix(rest as nat) + reversed@.reverse(),
            decreases rest,
        {
            let ghost before = reversed@;
            let c = char_for_digit((rest % 10) as u8);
            reversed.push(c);
            assert(reversed@.drop_last() =~= before);
            proof {
                lemma_decimal_prefix_step(n as nat, rest as nat, reversed@);
            }
            rest = rest / 10;
        }
    }
    let mut digits: Vec<char> = Vec::new();
    let mut i: usize = reversed.len();
    while i > 0
        invariant
            i <= reversed@.len(),
            digits@ == reversed@.subrange(i as int, reversed@.len() as int).reverse(),
        decreases i,
    {
        i -= 1;
        digits.push(reversed[i]);
        assert(digits@ =~= reversed@.subrange(i as int, reversed@.len() as int).reverse());
    }
    assert(reversed@.subrange(0, reversed@.len() as int) =~= reversed@);
    string_from_chars(&digits)
}

/// The decimal digits still to be produced for `rest`: none once it is 0.
pub open spec fn decimal_prefix(rest: nat) -> Seq<char> {
    if rest == 0 {
        Seq::empty()
    } else {
        decimal(rest)
    }
}

proof fn lemma_decimal_prefix_step(n: nat, rest: nat, reversed: Seq<char>)
    requires
        rest > 0,
        reversed.len() > 0,
        reversed.last() == digit_char(rest % 10),
        decimal(n) == decimal_prefix(rest) + reversed.drop_last().reverse(),
    ensures
        decimal(n) == decimal_prefix(rest / 10) + reversed.reverse(),
{
    let r = reversed.drop_last();
    assert(reversed.reverse() =~= seq![digit_char(rest % 10)] + r.reverse());
    if rest < 10 {
        assert(decimal(rest) =~= seq![digit_char(rest % 10)]);
        assert(decimal_prefix(rest / 10) + reversed.reverse() =~= decimal(rest) + r.reverse());
    } else {
        assert(decimal(rest) == decimal(rest / 10) + seq![digit_char(rest % 10)]);
        assert(decimal_prefix(rest / 10) + reversed.reverse() =~= decimal(rest) + r.reverse());
    }
}

fn char_for_digit(d: u8) -> (c: char)
    requires
        d < 10,
    ensures
        c == digit_char(d as nat),
{
    match d {
        0 => '0',
        1 => '1',
        2 => '2',
        3 => '3',
        4 => '4',
        5 => '5',
        6 => '6',
        7 => '7',
        8 => '8',
        _ => '9',
    }
}

/// The characters of `s`, in order.
pub fn chars_of(s: &str) -> (v: Vec<char>)
    ensures
        v@ == s@,
{
    broadcast use vstd::string::axiom_spec_iter, vstd::string::next_postcondition;

    let mut it = s.chars();
    let mut v: Vec<char> = Vec::new();
    loop
        invariant
            v@ + vstd::std_specs::iter::IteratorSpec::remaining(&it) == s@,
            vstd::std_specs::iter::IteratorSpec::decrease(&it) is Some,
        ensures
            v@ == s@,
        decreases vstd::std_specs::iter::IteratorSpec::decrease(&it)->0,
    {
        let ghost before = vstd::std_specs::iter::IteratorSpec::remaining(&it);
        match it.next() {
            Some(c) => {
                assert(v@.push(c) + vstd::std_specs::iter::IteratorSpec::remaining(&it) =~= v@ + before);
                v.push(c);
            },
            None => {
                assert(v@ =~= s@);
                break;
            },
        }
    }
    v
}

/// Whether two character sequences are equal.
pub fn same_chars(a: &[char], b: &[char]) -> (r: bool)
    ensures
        r == (a@ == b@),
{
    if a.len() != b.len() {
        return false;
    }
    let mut i: usize = 0;
    while i < a.len()
        invariant
            a@.len() == b@.len(),
            i <= a@.len(),
            forall|k: int| 0 <= k < i ==> a@[k] == b@[k],
        decreases a@.len() - i,
    {
        if a[i] != b[i] {
            return false;
        }
        i += 1;
    }
    assert(a@ =~= b@);
    true
}

/// Whether `c` is white space in the sense of `char::is_whitespace`.
pub open spec fn is_space(c: char) -> bool {
    let n = c as u32;
    (9 <= n <= 13) || n == 32 || n == 0x85 || n == 0xa0 || n == 0x1680 || (0x2000 <= n <= 0x200a)
        || n == 0x2028 || n == 0x2029 || n == 0x202f || n == 0x205f || n == 0x3000
}

pub fn is_space_char(c: char) -> (r: bool)
    ensures
        r == is_space(c),
{
    let n = c as u32;
    (9 <= n && n <= 13) || n == 32 || n == 0x85 || n == 0xa0 || n == 0x1680 || (0x2000 <= n && n
        <= 0x200a) || n == 0x2028 || n == 0x2029 || n == 0x202f || n == 0x205f || n == 0x3000
}

/// `s` without leading white space.
pub open spec fn trim_start(s: Seq<char>) -> Seq<char>
    decreases s.len(),
{
    if s.len() > 0 && is_space(s[0]) {
        trim_start(s.drop_first())
    } else {
        s
    }
}

/// `s` without trailing white space.
pub open spec fn trim_end(s: Seq<char>) -> Seq<char>
    decreases s.len(),
{
    if s.len() > 0 && is_space(s.last()) {
        trim_end(s.drop_last())
    } else {
        s
    }
}

/// `s` without leading and trailing white space (`str::trim`).
pub open spec fn trim(s: Seq<char>) -> Seq<char> {
    trim_end(trim_start(s))
}

proof fn lemma_trim_start_range(s: Seq<char>, start: int, i: int, end: int)
    requires
        0 <= start <= i <= end <= s.len(),
        forall|k: int| start <= k < i ==> is_space(s[k]),
    ensures
        trim_start(s.subrange(start, end)) == trim_start(s.subrange(i, end)),
    decreases i - start,
{
    if start < i {
        let t = s.subrange(start, end);
        assert(t[0] == s[start]);
        assert(t.drop_first() =~= s.subrange(start + 1, end));
        lemma_trim_start_range(s, start + 1, i, end);
    }
}

proof fn lemma_trim_end_range(s: Seq<char>, start: int, j: int, end: int)
    requires
        0 <= start <= j <= end <= s.len(),
        forall|k: int| j <= k < end ==> is_space(s[k]),
    ensures
        trim_end(s.subrange(start, end)) == trim_end(s.subrange(start, j)),
    decreases end - j,
{
    if j < end {
        let t = s.subrange(start, end);
        assert(t.last() == s[end - 1]);
        assert(t.drop_last() =~= s.subrange(start, end - 1));
        lemma_trim_end_range(s, start, j, end - 1);
    }
}

/// The bounds of `trim(chars[start..end])`.
pub fn trim_bounds(chars: &Vec<char>, start: usize, end: usize) -> (r: (usize, usize))
    requires
        start <= end <= chars@.len(),
    ensures
        start <= r.0 <= r.1 <= end,
        trim(chars@.subrange(start as int, end as int)) == chars@.subrange(r.0 as int, r.1 as int),
{
    let mut i = start;
    while i < end && is_space_char(chars[i])
        invariant
            start <= i <= end <= chars@.len(),
            forall|k: int| start <= k < i ==> is_space(chars@[k]),
        decreases end - i,
    {
        i += 1;
    }
    let mut j = end;
    while j > i && is_space_char(chars[j - 1])
        invariant
            start <= i <= j <= end <= chars@.len(),
            forall|k: int| j <= k < end ==> is_space(chars@[k]),
        decreases j - i,
    {
        j -= 1;
    }
    proof {
        let s = chars@;
        lemma_trim_start_range(s, start as int, i as int, end as int);
        let u = s.subrange(i as int, end as int);
        if u.len() > 0 {
            assert(u[0] == s[i as int]);
        }
        assert(trim_start(u) == u);
        lemma_trim_end_range(s, i as int, j as int, end as int);
        let v = s.subrange(i as int, j as int);
        if v.len() > 0 {
            assert(v.last() == s[j - 1]);
        }
        assert(trim_end(v) == v);
    }
    (i, j)
}

/// `str::trim` made owned: `s` without leading and trailing white space.
pub fn trimmed(s: &str) -> (r: String)
    ensures
        r@ == trim(s@),
{
    let chars = chars_of(s);
    let (a, b) = trim_bounds(&chars, 0, chars.len());
    assert(chars@.subrange(0, chars@.len() as int) =~= s@);
    let mut kept: Vec<char> = Vec::new();
    let mut k = a;
    while k < b
        invariant
            a <= k <= b <= chars@.len(),
            kept@ == chars@.subrange(a as int, k as int),
        decreases b - k,
    {
        kept.push(chars[k]);
        k += 1;
        assert(kept@ =~= chars@.subrange(a as int, k as int));
    }
    string_from_chars(&kept)
}

} // verus!
