//! Sortable timestamp identifiers for new records.
//!
//! A `Tid` packs a 54-bit microsecond timestamp and a 10-bit clock sequence
//! into a 64-bit value, printed as 13 characters of a base-32 alphabet whose
//! characters are in ascending order, most significant symbol first. Text
//! order of encoded identifiers therefore matches numeric order, and numeric
//! order matches generation order for one process (see `TidClock`).
use vstd::prelude::*;

use crate::clock::now_micros;
use crate::error::Error;
use crate::strutil::push_char;

verus! {

/// Exclusive upper bound of the 54-bit timestamp field.
pub const TS_LIMIT: u64 = 0x40000000000000;

/// The number of distinct clock-sequence values (10 bits).
pub const CLOCK_LIMIT: u32 = 1024;

/// 32 raised to `n`.
pub open spec fn pow32(n: nat) -> nat
    decreases n,
{
    if n == 0 {
        1
    } else {
        32 * pow32((n - 1) as nat)
    }
}

/// Digit `d` (below 32) of the sortable base-32 alphabet
/// `234567abcdefghijklmnopqrstuvwxyz`: the six characters `'2'..='7'`
/// followed by the twenty-six characters `'a'..='z'`.
pub open spec fn char_of_digit(d: nat) -> char {
    if d < 6 {
        ((d + 50) as u8) as char
    } else {
        ((d + 91) as u8) as char
    }
}

/// The digit a character stands for, or -1 if it is outside the alphabet.
pub open spec fn digit_of_char(c: char) -> int {
    if 50 <= c as int && c as int <= 55 {
        c as int - 50
    } else if 97 <= c as int && c as int <= 122 {
        c as int - 91
    } else {
        -1
    }
}

pub open spec fn b32_char(c: char) -> bool {
    digit_of_char(c) >= 0
}

/// The last `n` base-32 digits of `v`, most significant first.
pub open spec fn tid_chars(v: nat, n: nat) -> Seq<char>
    decreases n,
{
    if n == 0 {
        Seq::empty()
    } else {
        tid_chars(v / 32, (n - 1) as nat).push(char_of_digit(v % 32))
    }
}

/// Exactly 13 characters, all from the alphabet.
pub open spec fn valid_tid_text(s: Seq<char>) -> bool {
    s.len() == 13 && forall|i: int| 0 <= i < s.len() ==> b32_char(#[trigger] s[i])
}

/// Folds the digits of `s` onto the accumulator, most significant first.
pub open spec fn dec_value(s: Seq<char>, acc: nat) -> nat
    decreases s.len(),
{
    if s.len() == 0 {
        acc
    } else {
        dec_value(s.drop_first(), acc * 32 + (if digit_of_char(s[0]) >= 0 {
            digit_of_char(s[0]) as nat
        } else {
            0
        }))
    }
}

/// Strict lexicographic order on character sequences, comparing characters
/// by code point, as Rust's `str` ordering does for ASCII text.
pub open spec fn lex_lt(a: Seq<char>, b: Seq<char>) -> bool
    decreases a.len(),
{
    if a.len() == 0 {
        b.len() > 0
    } else {
        b.len() > 0 && ((a[0] as int) < (b[0] as int) || (a[0] == b[0] && lex_lt(
            a.drop_first(),
            b.drop_first(),
        )))
    }
}

pub proof fn lemma_pow32_pos(n: nat)
    ensures
        pow32(n) >= 1,
    decreases n,
{
    if n > 0 {
        lemma_pow32_pos((n - 1) as nat);
    }
}

proof fn lemma_tid_chars_len(v: nat, n: nat)
    ensures
        tid_chars(v, n).len() == n,
    decreases n,
{
    if n > 0 {
        lemma_tid_chars_len(v / 32, (n - 1) as nat);
    }
}

proof fn lemma_digit_inverse(d: nat)
    requires
        d < 32,
    ensures
        digit_of_char(char_of_digit(d)) == d,
        b32_char(char_of_digit(d)),
{
}

proof fn lemma_tid_chars_valid(v: nat, n: nat)
    ensures
        forall|i: int| 0 <= i < tid_chars(v, n).len() ==> b32_char(#[trigger] tid_chars(v, n)[i]),
    decreases n,
{
    if n > 0 {
        lemma_tid_chars_valid(v / 32, (n - 1) as nat);
        lemma_tid_chars_len(v / 32, (n - 1) as nat);
        lemma_digit_inverse(v % 32);
        assert forall|i: int| 0 <= i < tid_chars(v, n).len() implies b32_char(
            #[trigger] tid_chars(v, n)[i],
        ) by {
            if i < n - 1 {
                assert(tid_chars(v, n)[i] == tid_chars(v / 32, (n - 1) as nat)[i]);
            } else {
                assert(tid_chars(v, n)[i] == char_of_digit(v % 32));
            }
        }
    }
}

proof fn lemma_dec_push(s: Seq<char>, x: char, acc: nat)
    ensures
        dec_value(s.push(x), acc) == dec_value(s, acc) * 32 + (if digit_of_char(x) >= 0 {
            digit_of_char(x) as nat
        } else {
            0
        }),
    decreases s.len(),
{
    if s.len() == 0 {
        assert(s.push(x)[0] == x);
        assert(s.push(x).drop_first() =~= Seq::<char>::empty());
        assert(dec_value(s.push(x), acc) == dec_value(
            s.push(x).drop_first(),
            acc * 32 + (if digit_of_char(x) >= 0 {
                digit_of_char(x) as nat
            } else {
                0
            }),
        ));
    } else {
        assert(s.push(x).drop_first() =~= s.drop_first().push(x));
        assert(s.push(x)[0] == s[0]);
        lemma_dec_push(
            s.drop_first(),
            x,
            acc * 32 + (if digit_of_char(s[0]) >= 0 {
                digit_of_char(s[0]) as nat
            } else {
                0
            }),
        );
    }
}

/// Reading the digit string of `v` back yields `v` over the accumulator.
proof fn lemma_dec_enc(v: nat, n: nat, acc: nat)
    requires
        v < pow32(n),
    ensures
        dec_value(tid_chars(v, n), acc) == acc * pow32(n) + v,
    decreases n,
{
    if n == 0 {
        assert(v == 0);
    } else {
        let q = v / 32;
        let r = v % 32;
        assert(q < pow32((n - 1) as nat)) by (nonlinear_arith)
            requires
                v < pow32(n),
                pow32(n) == 32 * pow32((n - 1) as nat),
                q == v / 32,
        ;
        lemma_dec_enc(q, (n - 1) as nat, acc);
        lemma_digit_inverse(r);
        lemma_dec_push(tid_chars(q, (n - 1) as nat), char_of_digit(r), acc);
        assert((acc * pow32((n - 1) as nat) + q) * 32 + r == acc * pow32(n) + v)
            by (nonlinear_arith)
            requires
                pow32(n) == 32 * pow32((n - 1) as nat),
                q == v / 32,
                r == v % 32,
                v < pow32(n),
        ;
    }
}

/// Round trip: decoding the 13-character form of any 64-bit value gives the
/// value back.
pub proof fn lemma_tid_text_round_trip(v: nat)
    requires
        v < 0x10000000000000000,
    ensures
        valid_tid_text(tid_chars(v, 13)),
        dec_value(tid_chars(v, 13), 0) == v,
{
    assert(pow32(13) == 0x20000000000000000) by {
        reveal_with_fuel(pow32, 14);
    }
    lemma_tid_chars_len(v, 13);
    lemma_tid_chars_valid(v, 13);
    lemma_dec_enc(v, 13, 0);
}

/// Round trip at the level of parts: the encoded text of a timestamp and
/// sequence pair is valid, and decoding it restores exactly that pair.
pub proof fn lemma_tid_parts_round_trip(timestamp_us: u64, clock_id: u32)
    requires
        timestamp_us < TS_LIMIT,
        clock_id < CLOCK_LIMIT,
    ensures
        ({
            let v = timestamp_us as nat * 1024 + clock_id as nat;
            &&& valid_tid_text(tid_chars(v, 13))
            &&& dec_value(tid_chars(v, 13), 0) % 0x10000000000000000 == v
            &&& (dec_value(tid_chars(v, 13), 0) % 0x10000000000000000) / 1024 == timestamp_us
            &&& (dec_value(tid_chars(v, 13), 0) % 0x10000000000000000) % 1024 == clock_id
        }),
{
    let v = timestamp_us as nat * 1024 + clock_id as nat;
    assert(v < 0x10000000000000000) by (nonlinear_arith)
        requires
            v == timestamp_us as nat * 1024 + clock_id as nat,
            timestamp_us < 0x40000000000000,
            clock_id < 1024,
    ;
    lemma_tid_text_round_trip(v);
    assert(v / 1024 == timestamp_us && v % 1024 == clock_id) by (nonlinear_arith)
        requires
            v == timestamp_us as nat * 1024 + clock_id as nat,
            clock_id < 1024,
    ;
}

proof fn lemma_lex_lt_push_strict(s1: Seq<char>, s2: Seq<char>, a: char, b: char)
    requires
        s1.len() == s2.len(),
        lex_lt(s1, s2),
    ensures
        lex_lt(s1.push(a), s2.push(b)),
    decreases s1.len(),
{
    if s1.len() == 0 {
        assert(false);
    } else if s2.len() == 0 {
        assert(false);
    } else {
        assert(s1.push(a)[0] == s1[0]);
        assert(s2.push(b)[0] == s2[0]);
        if (s1[0] as int) < (s2[0] as int) {
        } else {
            assert(s1.push(a).drop_first() =~= s1.drop_first().push(a));
            assert(s2.push(b).drop_first() =~= s2.drop_first().push(b));
            lemma_lex_lt_push_strict(s1.drop_first(), s2.drop_first(), a, b);
        }
    }
}

proof fn lemma_lex_lt_push_eq(s: Seq<char>, a: char, b: char)
    requires
        (a as int) < (b as int),
    ensures
        lex_lt(s.push(a), s.push(b)),
    decreases s.len(),
{
    if s.len() == 0 {
    } else {
        assert(s.push(a)[0] == s[0]);
        assert(s.push(b)[0] == s[0]);
        assert(s.push(a).drop_first() =~= s.drop_first().push(a));
        assert(s.push(b).drop_first() =~= s.drop_first().push(b));
        lemma_lex_lt_push_eq(s.drop_first(), a, b);
    }
}

proof fn lemma_char_of_digit_order(d1: nat, d2: nat)
    requires
        d1 < d2 < 32,
    ensures
        (char_of_digit(d1) as int) < (char_of_digit(d2) as int),
{
}

/// The encoding is strictly monotone: a larger value gets a
/// lexicographically larger digit string of the same length.
pub proof fn lemma_tid_chars_order(v1: nat, v2: nat, n: nat)
    requires
        v1 < v2,
        v2 < pow32(n),
    ensures
        lex_lt(tid_chars(v1, n), tid_chars(v2, n)),
    decreases n,
{
    if n == 0 {
        assert(false);
    } else {
        let q1 = v1 / 32;
        let q2 = v2 / 32;
        let r1 = v1 % 32;
        let r2 = v2 % 32;
        assert(q1 <= q2 && q2 < pow32((n - 1) as nat) && (q1 == q2 ==> r1 < r2))
            by (nonlinear_arith)
            requires
                v1 < v2,
                v2 < pow32(n),
                pow32(n) == 32 * pow32((n - 1) as nat),
                q1 == v1 / 32,
                q2 == v2 / 32,
                r1 == v1 % 32,
                r2 == v2 % 32,
        ;
        lemma_tid_chars_len(q1, (n - 1) as nat);
        lemma_tid_chars_len(q2, (n - 1) as nat);
        if q1 < q2 {
            lemma_tid_chars_order(q1, q2, (n - 1) as nat);
            lemma_lex_lt_push_strict(
                tid_chars(q1, (n - 1) as nat),
                tid_chars(q2, (n - 1) as nat),
                char_of_digit(r1),
                char_of_digit(r2),
            );
        } else {
            lemma_char_of_digit_order(r1, r2);
            lemma_lex_lt_push_eq(
                tid_chars(q1, (n - 1) as nat),
                char_of_digit(r1),
                char_of_digit(r2),
            );
        }
    }
}

/// Timestamp-plus-sequence identifier for records.
#[derive(Debug, Clone, Copy, PartialEq, Eq, Hash)]
pub struct Tid {
    timestamp_us: u64,
    clock_id: u32,
}

impl Tid {
    /// Both fields within their bit widths.
    pub open spec fn wf(&self) -> bool {
        self.spec_timestamp() < TS_LIMIT && self.spec_clock() < CLOCK_LIMIT
    }

    pub closed spec fn spec_timestamp(&self) -> u64 {
        self.timestamp_us
    }

    pub closed spec fn spec_clock(&self) -> u32 {
        self.clock_id
    }

    /// The packed 64-bit value: timestamp in the high 54 bits, sequence in
    /// the low 10.
    pub open spec fn spec_value(&self) -> nat {
        self.spec_timestamp() as nat * 1024 + self.spec_clock() as nat
    }

    /// Builds an identifier from raw parts; the clock sequence is reduced to
    /// its low 10 bits, as the generator produces it.
    pub fn from_parts(timestamp_us: u64, clock_id: u32) -> (r: Tid)
        requires
            timestamp_us < TS_LIMIT,
        ensures
            r.wf(),
            r.spec_timestamp() == timestamp_us,
            r.spec_clock() == clock_id % 1024,
    {
        let masked = clock_id & 0x3FF;
        proof {
            assert(clock_id & 0x3FF == clock_id % 1024) by (bit_vector);
        }
        Tid { timestamp_us, clock_id: masked }
    }

    /// Microseconds since the Unix epoch.
    pub fn timestamp_us(&self) -> (r: u64)
        ensures
            r == self.spec_timestamp(),
    {
        self.timestamp_us
    }

    /// The clock-sequence component.
    pub fn clock_id(&self) -> (r: u32)
        ensures
            r == self.spec_clock(),
    {
        self.clock_id
    }

    /// The 13-character sortable text form.
    pub fn encode(&self) -> (r: String)
        requires
            self.wf(),
        ensures
            r@ == tid_chars(self.spec_value(), 13),
            r@.len() == 13,
    {
        proof {
            assert(self.timestamp_us * 1024 + (self.clock_id as u64) < 0x10000000000000000)
                by (nonlinear_arith)
                requires
                    self.timestamp_us < 0x40000000000000,
                    self.clock_id < 1024,
            ;
        }
        let value: u64 = self.timestamp_us * 1024 + (self.clock_id as u64);
        let mut digits: Vec<char> = Vec::new();
        let mut m: u64 = value;
        let mut k: usize = 0;
        while k < 13
            invariant
                k <= 13,
                digits@.len() == k,
                tid_chars(value as nat, 13) =~= tid_chars(m as nat, (13 - k) as nat)
                    + digits@.reverse(),
            decreases 13 - k,
        {
            let d: u64 = m % 32;
            let c: char = if d < 6 {
                ((d + 50) as u8) as char
            } else {
                ((d + 91) as u8) as char
            };
            proof {
                assert(c == char_of_digit((m as nat) % 32));
                let rest = (13 - k) as nat;
                assert(tid_chars(m as nat, rest) == tid_chars((m as nat) / 32, (rest - 1) as nat)
                    .push(char_of_digit((m as nat) % 32)));
                assert((digits@.push(c)).reverse() =~= seq![c] + digits@.reverse());
                assert(tid_chars((m as nat) / 32, (rest - 1) as nat) + (digits@.push(
                    c,
                )).reverse() =~= tid_chars(m as nat, rest) + digits@.reverse());
                assert((m as nat) / 32 == (m / 32) as nat);
            }
            digits.push(c);
            m = m / 32;
            k = k + 1;
        }
        proof {
            assert(tid_chars(value as nat, 13) =~= digits@.reverse());
            lemma_tid_chars_len(value as nat, 13);
        }
        let mut r = String::new();
        let len = digits.len();
        let mut j: usize = 0;
        while j < len
            invariant
                j <= len,
                len == digits@.len(),
                r@.len() == j,
                forall|i: int| 0 <= i < j ==> r@[i] == digits@[len - 1 - i],
            decreases len - j,
        {
            let c = digits[len - 1 - j];
            push_char(&mut r, c);
            j = j + 1;
        }
        proof {
            assert(r@ =~= digits@.reverse());
            assert(self.spec_value() == value as nat);
        }
        r
    }

    /// Parses the 13-character text form; rejects any other length and any
    /// character outside the alphabet.
    pub fn decode(s: &str) -> (r: Result<Tid, Error>)
        ensures
            r is Ok <==> valid_tid_text(s@),
            r is Err ==> r->Err_0 is InvalidTid,
            r is Ok ==> {
                let v = dec_value(s@, 0) % 0x10000000000000000;
                &&& r->Ok_0.wf()
                &&& r->Ok_0.spec_timestamp() as nat == v / 1024
                &&& r->Ok_0.spec_clock() as nat == v % 1024
            },
    {
        let n = s.unicode_len();
        if n != 13 {
            return Err(Error::InvalidTid(String::from_str("identifier must be 13 characters")));
        }
        let mut acc: u128 = 0;
        let mut i: usize = 0;
        while i < 13
            invariant
                i <= 13,
                s@.len() == 13,
                acc as nat == dec_value(s@.subrange(0, i as int), 0),
                (acc as nat) < pow32(i as nat),
                forall|k: int| 0 <= k < i ==> b32_char(#[trigger] s@[k]),
            decreases 13 - i,
        {
            let c = s.get_char(i);
            let x = c as u32;
            let d: u32 = if 50 <= x && x <= 55 {
                x - 50
            } else if 97 <= x && x <= 122 {
                x - 91
            } else {
                proof {
                    assert(!b32_char(s@[i as int]));
                }
                return Err(Error::InvalidTid(
                    String::from_str("character outside the sortable alphabet"),
                ));
            };
            proof {
                assert(d as int == digit_of_char(s@[i as int]));
                let pre = s@.subrange(0, i as int);
                assert(s@.subrange(0, i as int + 1) =~= pre.push(s@[i as int]));
                lemma_dec_push(pre, s@[i as int], 0);
                assert(pow32((i + 1) as nat) == 32 * pow32(i as nat));
                assert((acc as nat) * 32 + (d as nat) < 32 * pow32(i as nat)) by (nonlinear_arith)
                    requires
                        (acc as nat) < pow32(i as nat),
                        d < 32,
                ;
                assert(pow32(13) == 0x20000000000000000) by {
                    reveal_with_fuel(pow32, 14);
                }
                lemma_pow32_mono((i + 1) as nat, 13);
            }
            acc = acc * 32 + (d as u128);
            i = i + 1;
        }
        proof {
            assert(s@.subrange(0, 13) =~= s@);
        }
        let value: u64 = (acc % 0x10000000000000000) as u64;
        let timestamp_us: u64 = value / 1024;
        let clock_id: u32 = (value % 1024) as u32;
        proof {
            assert(value as nat == dec_value(s@, 0) % 0x10000000000000000);
            assert(timestamp_us < TS_LIMIT) by (nonlinear_arith)
                requires
                    timestamp_us == value / 1024,
                    value < 0x10000000000000000,
            ;
        }
        Ok(Tid { timestamp_us, clock_id })
    }

    /// Generates the identifier for the present moment, read from the wall
    /// clock and reduced to the 54-bit range, advancing the shared clock
    /// state by one step.
    pub fn now(clock: &mut TidClock) -> (r: Tid)
        requires
            old(clock).wf(),
        ensures
            final(clock).wf(),
            r.wf(),
            exists|ts: u64|
                ts < TS_LIMIT && #[trigger] spec_clock_next(*old(clock), ts, *final(clock), r),
    {
        let m = now_micros();
        let ts: u64 = if m < 0 {
            0
        } else {
            (m as u64) % TS_LIMIT
        };
        clock.next(ts)
    }
}

proof fn lemma_pow32_mono(a: nat, b: nat)
    requires
        a <= b,
    ensures
        pow32(a) <= pow32(b),
    decreases b,
{
    if a < b {
        lemma_pow32_mono(a, (b - 1) as nat);
        lemma_pow32_pos((b - 1) as nat);
    }
}

/// The per-process clock state behind identifier generation: the low 32 bits
/// of the last seen timestamp, and the current clock sequence.
pub struct TidClock {
    last_timestamp_low: u32,
    clock_id: u32,
}

impl TidClock {
    pub open spec fn wf(&self) -> bool {
        self.spec_clock() < CLOCK_LIMIT
    }

    pub closed spec fn spec_last_low(&self) -> u32 {
        self.last_timestamp_low
    }

    pub closed spec fn spec_clock(&self) -> u32 {
        self.clock_id
    }

    pub fn new() -> (r: TidClock)
        ensures
            r.wf(),
            r.spec_last_low() == 0,
            r.spec_clock() == 0,
    {
        TidClock { last_timestamp_low: 0, clock_id: 0 }
    }

    /// Issues the identifier for one generation at time `timestamp_us`: an
    /// unchanged low-order timestamp advances the clock sequence, a changed
    /// one resets it, so that two generations within one microsecond differ
    /// (up to the accepted 10-bit wrap).
    pub fn next(&mut self, timestamp_us: u64) -> (r: Tid)
        requires
            old(self).wf(),
            timestamp_us < TS_LIMIT,
        ensures
            final(self).wf(),
            r.wf(),
            spec_clock_next(*old(self), timestamp_us, *final(self), r),
    {
        let low: u32 = (timestamp_us % 0x100000000) as u32;
        if self.last_timestamp_low == low {
            self.clock_id = (self.clock_id + 1) % 1024;
        } else {
            self.last_timestamp_low = low;
            self.clock_id = 0;
        }
        Tid { timestamp_us, clock_id: self.clock_id }
    }
}

/// One step of the generator: the issued identifier carries the given
/// timestamp; an unchanged low-order timestamp advances the sequence by
/// one (mod 1024), a changed one resets it to zero and records the new
/// low-order timestamp.
pub open spec fn spec_clock_next(c0: TidClock, ts: u64, c1: TidClock, t: Tid) -> bool {
    &&& t.spec_timestamp() == ts
    &&& t.spec_clock() == c1.spec_clock()
    &&& c1.spec_last_low() as nat == ts as nat % 0x100000000
    &&& (c0.spec_last_low() as nat == ts as nat % 0x100000000 ==> c1.spec_clock() == (
        c0.spec_clock() + 1) % 1024)
    &&& (c0.spec_last_low() as nat != ts as nat % 0x100000000 ==> c1.spec_clock() == 0)
}

/// Two identifiers issued back to back by one clock sort in generation
/// order, even within one microsecond, provided time did not move
/// backwards and the 10-bit sequence did not wrap around within that
/// microsecond.
pub proof fn lemma_clock_sequence_sorted(
    c0: TidClock,
    c1: TidClock,
    c2: TidClock,
    t1: Tid,
    t2: Tid,
    ts1: u64,
    ts2: u64,
)
    requires
        t1.wf(),
        t2.wf(),
        ts1 < TS_LIMIT,
        ts2 < TS_LIMIT,
        spec_clock_next(c0, ts1, c1, t1),
        spec_clock_next(c1, ts2, c2, t2),
        ts1 <= ts2,
        ts1 == ts2 ==> t1.spec_clock() < 1023,
    ensures
        lex_lt(tid_chars(t1.spec_value(), 13), tid_chars(t2.spec_value(), 13)),
{
    if ts1 == ts2 {
        assert(c1.spec_last_low() as nat == ts2 as nat % 0x100000000);
        assert(t2.spec_clock() == (t1.spec_clock() + 1) % 1024);
        assert(t2.spec_clock() == t1.spec_clock() + 1);
    }
    lemma_sequential_tids_sorted(t1, t2);
}

/// Two identifiers sort in generation order whenever the later one has a
/// later timestamp, or the same timestamp and a later clock sequence.
pub proof fn lemma_sequential_tids_sorted(t1: Tid, t2: Tid)
    requires
        t1.wf(),
        t2.wf(),
        t1.spec_timestamp() <= t2.spec_timestamp(),
        t1.spec_timestamp() == t2.spec_timestamp() ==> t1.spec_clock() < t2.spec_clock(),
    ensures
        lex_lt(tid_chars(t1.spec_value(), 13), tid_chars(t2.spec_value(), 13)),
{
    assert(pow32(13) == 0x20000000000000000) by {
        reveal_with_fuel(pow32, 14);
    }
    assert(t1.spec_value() < t2.spec_value()) by (nonlinear_arith)
        requires
            t1.spec_value() == t1.spec_timestamp() as nat * 1024 + t1.spec_clock() as nat,
            t2.spec_value() == t2.spec_timestamp() as nat * 1024 + t2.spec_clock() as nat,
            t1.spec_timestamp() <= t2.spec_timestamp(),
            t1.spec_clock() < 1024,
            t2.spec_clock() < 1024,
            t1.spec_timestamp() == t2.spec_timestamp() ==> t1.spec_clock() < t2.spec_clock(),
    ;
    assert(t2.spec_value() < pow32(13)) by (nonlinear_arith)
        requires
            t2.spec_value() == t2.spec_timestamp() as nat * 1024 + t2.spec_clock() as nat,
            t2.spec_timestamp() < 0x40000000000000,
            t2.spec_clock() < 1024,
            pow32(13) == 0x20000000000000000,
    ;
    lemma_tid_chars_order(t1.spec_value(), t2.spec_value(), 13);
}

} // verus!

