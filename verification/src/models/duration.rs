//! Durations, carried as millisecond counts.
//!
//! On the wire a duration is one JSON integer of milliseconds.  The exact
//! decimal text of that integer is specified here, and rendering and
//! reading are verified against it: `to_millis_string` produces exactly
//! `dec_int` of the count, `from_millis_str` accepts exactly the
//! well-formed decimal texts of 64-bit counts and reads back the denoted
//! count, and `lemma_millis_text_round_trip` proves that every count
//! survives the round trip through its text.

use vstd::prelude::*;
use vstd::string::StrSliceExecFns;
use vstd::string::StringExecFns;

verus! {

/// The digit character of one decimal digit value.
pub open spec fn dec_digit(d: int) -> char {
    if d == 0 {
        '0'
    } else if d == 1 {
        '1'
    } else if d == 2 {
        '2'
    } else if d == 3 {
        '3'
    } else if d == 4 {
        '4'
    } else if d == 5 {
        '5'
    } else if d == 6 {
        '6'
    } else if d == 7 {
        '7'
    } else if d == 8 {
        '8'
    } else {
        '9'
    }
}

/// The decimal text of a non-negative number: no sign, no leading zero
/// except for the number zero itself.
pub open spec fn dec_nat(n: int) -> Seq<char>
    decreases n,
{
    if n < 10 {
        seq![dec_digit(n)]
    } else {
        dec_nat(n / 10).push(dec_digit(n % 10))
    }
}

/// The decimal text of a signed number.
pub open spec fn dec_int(n: int) -> Seq<char> {
    if n < 0 {
        seq!['-'] + dec_nat(-n)
    } else {
        dec_nat(n)
    }
}

/// A decimal digit character.
pub open spec fn is_dec_digit(c: char) -> bool {
    '0' <= c <= '9'
}

/// The value of one digit character.
pub open spec fn digit_val(c: char) -> int {
    c as int - '0' as int
}

/// The number the digit characters of `s` denote.
pub open spec fn dec_value(s: Seq<char>) -> int
    decreases s.len(),
{
    if s.len() == 0 {
        0
    } else {
        dec_value(s.drop_last()) * 10 + digit_val(s.last())
    }
}

/// The digit part of a millisecond text: everything after a leading `-`.
pub open spec fn millis_digits(s: Seq<char>) -> Seq<char> {
    if s.len() > 0 && s[0] == '-' {
        s.drop_first()
    } else {
        s
    }
}

/// A well-formed millisecond text: an optional `-`, then digits with no
/// superfluous leading zero, denoting a count a 64-bit signed number can
/// hold.  Every count's own rendering is well formed (at most nineteen
/// digits), so rendering and reading round-trip.
pub open spec fn valid_millis_text(s: Seq<char>) -> bool {
    let d = millis_digits(s);
    &&& 0 < d.len() <= 19
    &&& forall|i: int| 0 <= i < d.len() ==> is_dec_digit(#[trigger] d[i])
    &&& (d.len() == 1 || d[0] != '0')
    &&& if s.len() > 0 && s[0] == '-' {
        dec_value(d) <= 0x8000_0000_0000_0000
    } else {
        dec_value(d) <= 0x7fff_ffff_ffff_ffff
    }
}

/// The number a well-formed millisecond text denotes.
pub open spec fn millis_value(s: Seq<char>) -> int {
    if s.len() > 0 && s[0] == '-' {
        -dec_value(s.drop_first())
    } else {
        dec_value(s)
    }
}

/// Ten to the `n`.
pub open spec fn pow10(n: nat) -> int
    decreases n,
{
    if n == 0 {
        1
    } else {
        10 * pow10((n - 1) as nat)
    }
}

/// A string of digits denotes a number below ten to its length.
proof fn lemma_dec_value_bound(d: Seq<char>)
    requires
        forall|i: int| 0 <= i < d.len() ==> is_dec_digit(#[trigger] d[i]),
    ensures
        0 <= dec_value(d) < pow10(d.len()),
    decreases d.len(),
{
    if d.len() > 0 {
        lemma_dec_value_bound(d.drop_last());
        let v = dec_value(d.drop_last());
        let p = pow10((d.len() - 1) as nat);
        assert(0 <= digit_val(d.last()) <= 9);
        assert(v * 10 <= (p - 1) * 10) by (nonlinear_arith)
            requires
                0 <= v <= p - 1,
        ;
    }
}

/// The digit characters denote back the number they were rendered from,
/// without sign or leading zero.
proof fn lemma_dec_nat_inverse(m: int)
    requires
        m >= 0,
    ensures
        dec_value(dec_nat(m)) == m,
        dec_nat(m).len() >= 1,
        forall|i: int| 0 <= i < dec_nat(m).len() ==> is_dec_digit(#[trigger] dec_nat(m)[i]),
        m > 0 ==> dec_nat(m)[0] != '0',
        m < 10 ==> dec_nat(m).len() == 1,
    decreases m,
{
    if m < 10 {
        let s = seq![dec_digit(m)];
        assert(s.drop_last() =~= Seq::<char>::empty());
        assert(dec_value(Seq::<char>::empty()) == 0);
        assert(s.last() == dec_digit(m));
        assert(digit_val(dec_digit(m)) == m);
        assert(is_dec_digit(dec_digit(m)));
    } else {
        lemma_dec_nat_inverse(m / 10);
        let p = dec_nat(m / 10);
        let c = dec_digit(m % 10);
        assert(p.push(c).drop_last() =~= p);
        assert(p.push(c).last() == c);
        assert(digit_val(c) == m % 10);
        assert(is_dec_digit(c));
        assert((m / 10) * 10 + (m % 10) == m);
        assert(dec_nat(m)[0] == p[0]);
    }
}

/// A number below ten to the `k` renders to at most `k` digits.
proof fn lemma_dec_nat_len(m: int, k: nat)
    requires
        0 <= m < pow10(k),
        k >= 1,
    ensures
        dec_nat(m).len() <= k,
    decreases k,
{
    if m >= 10 {
        assert(pow10(1) == 10) by {
            reveal_with_fuel(pow10, 2);
        }
        lemma_pow10_monotonic(1, k);
        if k == 1 {
        } else {
            assert(m / 10 < pow10((k - 1) as nat));
            lemma_dec_nat_len(m / 10, (k - 1) as nat);
        }
    }
}

/// Rendering any 64-bit millisecond count and reading the text back yields
/// the same count: the rendered text is well formed and denotes its count.
pub proof fn lemma_millis_text_round_trip(ms: i64)
    ensures
        valid_millis_text(dec_int(ms as int)),
        millis_value(dec_int(ms as int)) == ms as int,
{
    lemma_pow10_exact();
    if ms < 0 {
        let mag = -(ms as int);
        lemma_dec_nat_inverse(mag);
        lemma_dec_nat_len(mag, 19);
        let s = dec_int(ms as int);
        assert(s == seq!['-'] + dec_nat(mag));
        assert(s[0] == '-');
        assert(s.drop_first() =~= dec_nat(mag));
        assert(millis_digits(s) == dec_nat(mag));
    } else {
        lemma_dec_nat_inverse(ms as int);
        lemma_dec_nat_len(ms as int, 19);
        let s = dec_int(ms as int);
        assert(s == dec_nat(ms as int));
        assert(is_dec_digit(s[0]));
        assert(s[0] != '-');
        assert(millis_digits(s) == s);
    }
}

/// A duration, as a count of milliseconds.
#[derive(Debug, Clone, Copy, PartialEq, Eq)]
pub struct Duration {
    ms: i64,
}

impl Duration {
    /// The count this duration holds.
    pub closed spec fn spec_millis(&self) -> int {
        self.ms as int
    }

    /// A duration of `ms` milliseconds.
    pub fn from_milliseconds(ms: i64) -> (d: Duration)
        ensures
            d.spec_millis() == ms as int,
    {
        Duration { ms }
    }

    /// The count of milliseconds.
    pub fn num_milliseconds(&self) -> (ms: i64)
        ensures
            ms as int == self.spec_millis(),
    {
        self.ms
    }

    /// Renders the count as its exact decimal text — the wire form of a
    /// duration.
    pub fn to_millis_string(&self) -> (s: String)
        ensures
            s@ == dec_int(self.spec_millis()),
    {
        let mut out = String::new();
        if self.ms < 0 {
            out.append("-");
            let mag_wide: i128 = -(self.ms as i128);
            proof {
                assert(0 <= mag_wide <= u64::MAX as i128);
            }
            let mag: u64 = mag_wide as u64;
            proof {
                assert(mag as int == -(self.ms as int));
            }
            push_dec(mag, &mut out);
            proof {
                reveal_strlit("-");
                assert("-"@ =~= seq!['-']);
                assert(out@ =~= seq!['-'] + dec_nat(-self.spec_millis()));
            }
        } else {
            push_dec(self.ms as u64, &mut out);
            proof {
                assert(out@ =~= dec_nat(self.spec_millis()));
            }
        }
        out
    }

    /// Reads a duration off its exact decimal text: accepts precisely the
    /// well-formed texts, and `r` then holds the denoted count.  Reading
    /// back a rendered duration yields the duration again.
    pub fn from_millis_str(s: &str) -> (r: Option<Duration>)
        ensures
            r is Some <==> valid_millis_text(s@),
            r matches Some(d) ==> d.spec_millis() == millis_value(s@),
    {
        let n = s.unicode_len();
        let neg = n > 0 && s.get_char(0) == '-';
        let start: usize = if neg {
            1
        } else {
            0
        };
        let ghost digits = millis_digits(s@);
        proof {
            assert(digits.len() == n - start);
            assert(forall|j: int| 0 <= j < digits.len() ==> digits[j] == s@[start + j]);
        }
        let len = n - start;
        if len == 0 || len > 19 {
            return None;
        }
        if len > 1 && s.get_char(start) == '0' {
            return None;
        }
        let mut acc: u64 = 0;
        let mut i = start;
        proof {
            assert(digits.subrange(0, 0) =~= Seq::<char>::empty());
            assert(dec_value(digits.subrange(0, 0)) == 0);
        }
        while i < n
            invariant
                start <= i <= n,
                n == s@.len(),
                start == (if neg {
                    1usize
                } else {
                    0usize
                }),
                digits == millis_digits(s@),
                neg ==> s@.len() > 0 && s@[0] == '-',
                0 < digits.len() <= 19,
                digits.len() == n - start,
                forall|j: int| 0 <= j < digits.len() ==> digits[j] == s@[start + j],
                forall|j: int| 0 <= j < i - start ==> is_dec_digit(#[trigger] digits[j]),
                acc == dec_value(digits.subrange(0, i - start)),
                acc < 0x8ac7_2304_89e8_0000,
            decreases n - i,
        {
            let c = s.get_char(i);
            let v = c as u32;
            if v < 48 || v > 57 {
                proof {
                    assert(digits[i - start] == c);
                    assert(!is_dec_digit(c));
                }
                return None;
            }
            proof {
                let pre = digits.subrange(0, i - start);
                assert(digits[i - start] == c);
                assert(is_dec_digit(c));
                lemma_dec_value_bound(pre);
                lemma_pow10_19_bound(pre.len() + 1);
                assert(pow10(pre.len() + 1) == 10 * pow10(pre.len()));
                assert(acc * 10 <= (pow10(pre.len()) - 1) * 10) by (nonlinear_arith)
                    requires
                        0 <= acc <= pow10(pre.len()) - 1,
                ;
                assert(acc * 10 + 9 <= pow10(pre.len() + 1) - 1);
                assert(digits.subrange(0, i - start + 1).drop_last() =~= pre);
                assert(digits.subrange(0, i - start + 1).last() == digits[i - start]);
                assert(digit_val(c) == v - 48);
            }
            acc = acc * 10 + ((v - 48) as u64);
            proof {
                assert(acc == dec_value(digits.subrange(0, i - start + 1)));
                assert(acc <= pow10(digits.subrange(0, i - start + 1).len()) - 1) by {
                    lemma_dec_value_bound(digits.subrange(0, i - start + 1));
                }
                lemma_pow10_19_bound(digits.subrange(0, i - start + 1).len());
            }
            i = i + 1;
        }
        proof {
            assert(digits.subrange(0, digits.len() as int) =~= digits);
            lemma_dec_value_bound(digits);
            lemma_pow10_19_bound(digits.len());
        }
        if neg {
            if acc > 0x8000_0000_0000_0000u64 {
                return None;
            }
            let ms: i64 = if acc == 0x8000_0000_0000_0000u64 {
                i64::MIN
            } else {
                -(acc as i64)
            };
            proof {
                assert(millis_value(s@) == -dec_value(digits));
                assert(ms as int == -(acc as int));
            }
            Some(Duration { ms })
        } else {
            if acc > 0x7fff_ffff_ffff_ffffu64 {
                return None;
            }
            Some(Duration { ms: acc as i64 })
        }
    }
}

/// Ten to at most nineteen fits a 64-bit count.
proof fn lemma_pow10_19_bound(n: nat)
    requires
        n <= 19,
    ensures
        pow10(n) <= 0x8ac7_2304_89e8_0000,
{
    lemma_pow10_monotonic(n, 19);
    lemma_pow10_exact();
}

/// `pow10` grows with its exponent.
proof fn lemma_pow10_monotonic(a: nat, b: nat)
    requires
        a <= b,
    ensures
        pow10(a) <= pow10(b),
        1 <= pow10(a),
    decreases b,
{
    if a == b {
        lemma_pow10_positive(a);
    } else {
        lemma_pow10_monotonic(a, (b - 1) as nat);
    }
}

/// `pow10` is at least one.
proof fn lemma_pow10_positive(n: nat)
    ensures
        1 <= pow10(n),
    decreases n,
{
    if n > 0 {
        lemma_pow10_positive((n - 1) as nat);
    }
}

/// The nineteenth power of ten, written out.
proof fn lemma_pow10_exact()
    ensures
        pow10(19) == 0x8ac7_2304_89e8_0000,
{
    reveal_with_fuel(pow10, 20);
}

/// Appends the decimal text of `n` to `out`.
fn push_dec(n: u64, out: &mut String)
    ensures
        final(out)@ == old(out)@ + dec_nat(n as int),
    decreases n,
{
    let ghost pre = out@;
    if n >= 10 {
        push_dec(n / 10, out);
    }
    out.append(digit_str(n % 10));
    proof {
        assert((n % 10) as int == (n as int) % 10);
        assert((n / 10) as int == (n as int) / 10);
        if n >= 10 {
            assert(out@ == pre + dec_nat((n as int) / 10) + seq![dec_digit((n as int) % 10)]);
            assert(dec_nat(n as int) == dec_nat((n as int) / 10).push(dec_digit((n as int) % 10)));
            assert(out@ =~= pre + dec_nat(n as int));
        } else {
            assert(out@ == pre + seq![dec_digit(n as int)]);
            assert(out@ =~= pre + dec_nat(n as int));
        }
    }
}

/// The one-character text of a digit value.
fn digit_str(d: u64) -> (s: &'static str)
    requires
        d < 10,
    ensures
        s@ == seq![dec_digit(d as int)],
{
    let s = match d {
        0 => "0",
        1 => "1",
        2 => "2",
        3 => "3",
        4 => "4",
        5 => "5",
        6 => "6",
        7 => "7",
        8 => "8",
        _ => "9",
    };
    proof {
        reveal_strlit("0");
        reveal_strlit("1");
        reveal_strlit("2");
        reveal_strlit("3");
        reveal_strlit("4");
        reveal_strlit("5");
        reveal_strlit("6");
        reveal_strlit("7");
        reveal_strlit("8");
        reveal_strlit("9");
        assert(s@ =~= seq![dec_digit(d as int)]);
    }
    s
}

} // verus!
