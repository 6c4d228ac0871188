//! Small string helpers shared by the rest of the library: character-level
//! comparison and search, and decimal formatting of integers.
use vstd::prelude::*;

verus! {

/// `p` is a prefix of `s`.
pub open spec fn has_prefix(s: Seq<char>, p: Seq<char>) -> bool {
    p.len() <= s.len() && s.subrange(0, p.len() as int) == p
}

/// The decimal digit `d` (below ten) as a character.
pub open spec fn dec_digit(d: u64) -> char {
    ((d + 48) as u8) as char
}

/// Decimal form of `n` without a leading zero; empty for zero.
pub open spec fn spec_dec0(n: u64) -> Seq<char>
    decreases n,
{
    if n == 0 {
        Seq::empty()
    } else {
        spec_dec0(n / 10).push(dec_digit(n % 10))
    }
}

/// Decimal form of `n`, as `u64_to_dec` prints it.
pub open spec fn spec_dec(n: u64) -> Seq<char> {
    if n == 0 {
        seq!['0']
    } else {
        spec_dec0(n)
    }
}

/// Relies on String::push: appends exactly one character.
#[verifier::external_body]
pub fn push_char(s: &mut String, c: char)
    ensures
        final(s)@ == old(s)@.push(c),
{
    s.push(c);
}

pub fn str_eq(a: &str, b: &str) -> (r: bool)
    ensures
        r == (a@ == b@),
{
    let n = a.unicode_len();
    let m = b.unicode_len();
    if n != m {
        return false;
    }
    let mut i: usize = 0;
    while i < n
        invariant
            i <= n,
            n == a@.len(),
            n == b@.len(),
            forall|k: int| 0 <= k < i ==> a@[k] == b@[k],
        decreases n - i,
    {
        if a.get_char(i) != b.get_char(i) {
            return false;
        }
        i = i + 1;
    }
    proof {
        assert(a@ =~= b@);
    }
    true
}

pub fn starts_with(s: &str, p: &str) -> (r: bool)
    ensures
        r == has_prefix(s@, p@),
{
    let n = s.unicode_len();
    let m = p.unicode_len();
    if m > n {
        return false;
    }
    let mut i: usize = 0;
    while i < m
        invariant
            i <= m,
            m <= n,
            n == s@.len(),
            m == p@.len(),
            forall|k: int| 0 <= k < i ==> s@[k] == p@[k],
        decreases m - i,
    {
        if s.get_char(i) != p.get_char(i) {
            return false;
        }
        i = i + 1;
    }
    proof {
        assert(s@.subrange(0, p@.len() as int) =~= p@);
    }
    true
}

/// Index of the first occurrence of `c` in `s` at or after `from`.
pub fn find_char_from(s: &str, from: usize, c: char) -> (r: Option<usize>)
    requires
        from <= s@.len(),
    ensures
        match r {
            Some(i) => from <= i < s@.len() && s@[i as int] == c && (forall|k: int|
                from <= k < i ==> s@[k] != c),
            None => forall|k: int| from <= k < s@.len() ==> s@[k] != c,
        },
{
    let n = s.unicode_len();
    let mut i: usize = from;
    while i < n
        invariant
            from <= i <= n,
            n == s@.len(),
            forall|k: int| from <= k < i ==> s@[k] != c,
        decreases n - i,
    {
        if s.get_char(i) == c {
            return Some(i);
        }
        i = i + 1;
    }
    None
}

/// Decimal text of `n`.
pub fn u64_to_dec(n: u64) -> (r: String)
    ensures
        r@ == spec_dec(n),
{
    if n == 0 {
        let r = String::from_str("0");
        proof {
            reveal_strlit("0");
            assert(r@ =~= seq!['0']);
        }
        return r;
    }
    let mut digits: Vec<char> = Vec::new();
    let mut m: u64 = n;
    while m > 0
        invariant
            spec_dec0(n) =~= spec_dec0(m) + digits@.reverse(),
            m == 0 ==> digits@.len() > 0,
        decreases m,
    {
        let d: u64 = m % 10;
        let c: char = ((d + 48) as u8) as char;
        proof {
            assert(c == dec_digit(d));
            assert(spec_dec0(m) == spec_dec0(m / 10).push(dec_digit(m % 10)));
            assert((digits@.push(c)).reverse() =~= seq![c] + digits@.reverse());
            assert(spec_dec0(m / 10) + (digits@.push(c)).reverse() =~= spec_dec0(m)
                + digits@.reverse());
        }
        digits.push(c);
        m = m / 10;
    }
    let mut r = String::new();
    let len = digits.len();
    let mut j: usize = 0;
    while j < len
        invariant
            j <= len,
            len == digits@.len(),
            r@.len() == j,
            forall|k: int| 0 <= k < j ==> r@[k] == digits@[len - 1 - k],
        decreases len - j,
    {
        let c = digits[len - 1 - j];
        push_char(&mut r, c);
        j = j + 1;
    }
    proof {
        assert(r@ =~= digits@.reverse());
        assert(spec_dec0(n) =~= spec_dec0(0) + digits@.reverse());
        assert(r@ =~= spec_dec0(n));
    }
    r
}

/// ASCII whitespace, as trimming treats it.
pub open spec fn is_ws(c: char) -> bool {
    c == ' ' || c == '\t' || c == '\n' || c == '\r'
}

/// `s` without leading whitespace.
pub open spec fn spec_trim_start(s: Seq<char>) -> Seq<char>
    decreases s.len(),
{
    if s.len() > 0 && is_ws(s[0]) {
        spec_trim_start(s.drop_first())
    } else {
        s
    }
}

/// `s` without trailing whitespace.
pub open spec fn spec_trim_end(s: Seq<char>) -> Seq<char>
    decreases s.len(),
{
    if s.len() > 0 && is_ws(s[s.len() - 1]) {
        spec_trim_end(s.drop_last())
    } else {
        s
    }
}

/// `s` without leading and trailing whitespace.
pub open spec fn spec_trim_ws(s: Seq<char>) -> Seq<char> {
    spec_trim_end(spec_trim_start(s))
}

/// Removes leading and trailing ASCII whitespace.
pub fn trim_ws(s: &str) -> (r: &str)
    ensures
        r@ == spec_trim_ws(s@),
{
    let n = s.unicode_len();
    let mut a: usize = 0;
    proof {
        assert(s@.subrange(0, n as int) =~= s@);
    }
    loop
        invariant
            a <= n,
            n == s@.len(),
            spec_trim_start(s@) == spec_trim_start(s@.subrange(a as int, n as int)),
        ensures
            a <= n,
            n == s@.len(),
            spec_trim_start(s@) == s@.subrange(a as int, n as int),
        decreases n - a,
    {
        if a == n {
            break;
        }
        let c = s.get_char(a);
        if !(c == ' ' || c == '\t' || c == '\n' || c == '\r') {
            proof {
                assert(s@.subrange(a as int, n as int)[0] == s@[a as int]);
            }
            break;
        }
        proof {
            assert(s@.subrange(a as int, n as int).drop_first() =~= s@.subrange(a + 1, n as int));
        }
        a = a + 1;
    }
    let start = a;
    let mut b: usize = n;
    loop
        invariant
            start <= b <= n,
            n == s@.len(),
            spec_trim_start(s@) == s@.subrange(start as int, n as int),
            spec_trim_end(s@.subrange(start as int, n as int)) == spec_trim_end(
                s@.subrange(start as int, b as int),
            ),
        ensures
            start <= b <= n,
            spec_trim_ws(s@) == s@.subrange(start as int, b as int),
        decreases b,
    {
        if b == start {
            break;
        }
        let c = s.get_char(b - 1);
        proof {
            let t = s@.subrange(start as int, b as int);
            assert(t[t.len() - 1] == s@[b - 1]);
        }
        if !(c == ' ' || c == '\t' || c == '\n' || c == '\r') {
            break;
        }
        proof {
            let t = s@.subrange(start as int, b as int);
            assert(t.drop_last() =~= s@.subrange(start as int, b - 1));
        }
        b = b - 1;
    }
    s.substring_char(start, b)
}

} // verus!
