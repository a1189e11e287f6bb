//! Decimal rendering and parsing of integers, with a canonical-form
//! round trip: rendering an integer and parsing it back are inverses.

use vstd::prelude::*;
use vstd::string::*;

verus! {

/// The decimal digit character for a value below ten.
pub open spec fn digit_char(d: nat) -> char {
    if d == 0 {
        '0'
    } else if d == 1 {
        '1'
    } else if d == 2 {
        '2'
    } else if d == 3 {
        '3'
    } else if d == 4 {
        '4'
    } else if d == 5 {
        '5'
    } else if d == 6 {
        '6'
    } else if d == 7 {
        '7'
    } else if d == 8 {
        '8'
    } else {
        '9'
    }
}

/// The value of a decimal digit character, if it is one.
pub open spec fn digit_val(c: char) -> Option<nat> {
    if c == '0' {
        Some(0)
    } else if c == '1' {
        Some(1)
    } else if c == '2' {
        Some(2)
    } else if c == '3' {
        Some(3)
    } else if c == '4' {
        Some(4)
    } else if c == '5' {
        Some(5)
    } else if c == '6' {
        Some(6)
    } else if c == '7' {
        Some(7)
    } else if c == '8' {
        Some(8)
    } else if c == '9' {
        Some(9)
    } else {
        None
    }
}

pub open spec fn is_digit(c: char) -> bool {
    digit_val(c) is Some
}

/// The value of a digit character, zero when it is not a digit.
pub open spec fn dval(c: char) -> nat {
    match digit_val(c) {
        Some(d) => d,
        None => 0,
    }
}

/// The canonical decimal rendering of a natural number: no sign, no
/// leading zeroes (except for zero itself).
pub open spec fn udec(n: nat) -> Seq<char>
    decreases n,
{
    if n < 10 {
        seq![digit_char(n)]
    } else {
        udec(n / 10).push(digit_char(n % 10))
    }
}

/// The canonical decimal rendering of an integer: a minus sign before
/// the digits when the value is negative.
pub open spec fn idec(n: int) -> Seq<char> {
    if n < 0 {
        seq!['-'] + udec((-n) as nat)
    } else {
        udec(n as nat)
    }
}

pub open spec fn all_digits(s: Seq<char>) -> bool {
    forall|i: int| 0 <= i < s.len() ==> is_digit(#[trigger] s[i])
}

/// A digit string in canonical form: nonempty, digits only, and no
/// leading zero unless the string is exactly "0".
pub open spec fn valid_udec(s: Seq<char>) -> bool {
    &&& s.len() > 0
    &&& all_digits(s)
    &&& (s[0] != '0' || s.len() == 1)
}

/// The value of a digit string, most significant digit first.
pub open spec fn digits_val(s: Seq<char>) -> nat
    decreases s.len(),
{
    if s.len() == 0 {
        0
    } else {
        digits_val(s.drop_last()) * 10 + dval(s.last())
    }
}

proof fn lemma_digit_char_val(d: nat)
    requires
        d < 10,
    ensures
        digit_val(digit_char(d)) == Some(d),
{
}

/// Rendering a natural number yields a canonical digit string whose
/// value is the number itself.
pub proof fn lemma_udec_valid(n: nat)
    ensures
        valid_udec(udec(n)),
        digits_val(udec(n)) == n,
        n > 0 ==> udec(n)[0] != '0',
    decreases n,
{
    if n < 10 {
        assert(udec(n) =~= seq![digit_char(n)]);
        assert(udec(n).drop_last() =~= Seq::<char>::empty());
        assert(digits_val(Seq::<char>::empty()) == 0);
        lemma_digit_char_val(n);
        assert(digits_val(udec(n)) == digits_val(udec(n).drop_last()) * 10 + dval(udec(n).last()));
    } else {
        lemma_udec_valid(n / 10);
        lemma_digit_char_val(n % 10);
        let s = udec(n);
        let p = udec(n / 10);
        assert(s =~= p.push(digit_char(n % 10)));
        assert(s.drop_last() =~= p);
        assert(s.last() == digit_char(n % 10));
        assert(digits_val(s) == (n / 10) * 10 + n % 10);
        assert((n / 10) * 10 + n % 10 == n) by (nonlinear_arith);
        assert(n / 10 > 0);
        assert(s[0] == p[0]);
        assert(forall|i: int| 0 <= i < s.len() ==> is_digit(#[trigger] s[i]));
    }
}

/// A nonzero-leading digit string has a nonzero value.
proof fn lemma_digits_val_pos(s: Seq<char>)
    requires
        valid_udec(s),
        s[0] != '0',
    ensures
        digits_val(s) >= 1,
    decreases s.len(),
{
    if s.len() == 1 {
        assert(s.drop_last() =~= Seq::<char>::empty());
        assert(dval(s.last()) >= 1);
    } else {
        let p = s.drop_last();
        assert(p[0] == s[0]);
        assert(all_digits(p)) by {
            assert(forall|i: int| 0 <= i < p.len() ==> p[i] == s[i] && is_digit(#[trigger] s[i]));
        }
        lemma_digits_val_pos(p);
        assert(digits_val(s) >= 1 * 10) by {
            assert(digits_val(p) * 10 >= 1 * 10) by (nonlinear_arith)
                requires
                    digits_val(p) >= 1,
            ;
        }
    }
}

/// A canonical digit string is the rendering of its value: rendering
/// and valuation are inverse on canonical strings.
pub proof fn lemma_udec_canonical(s: Seq<char>)
    requires
        valid_udec(s),
    ensures
        udec(digits_val(s)) =~= s,
    decreases s.len(),
{
    let n = digits_val(s);
    if s.len() == 1 {
        assert(s.drop_last() =~= Seq::<char>::empty());
        assert(digits_val(Seq::<char>::empty()) == 0);
        let d = dval(s.last());
        assert(d < 10);
        assert(n == d);
        assert(digit_char(d) == s[0]);
        assert(udec(n) =~= seq![digit_char(n)]);
        assert(udec(n) =~= s);
    } else {
        let p = s.drop_last();
        let d = dval(s.last());
        assert(is_digit(s.last())) by {
            assert(s.last() == s[s.len() - 1]);
        }
        assert(d < 10);
        assert(p[0] == s[0]);
        assert(p[0] != '0');
        assert(all_digits(p)) by {
            assert(forall|i: int| 0 <= i < p.len() ==> p[i] == s[i] && is_digit(#[trigger] s[i]));
        }
        lemma_digits_val_pos(p);
        lemma_udec_canonical(p);
        let m = digits_val(p);
        assert(n == m * 10 + d);
        assert(n / 10 == m && n % 10 == d) by (nonlinear_arith)
            requires
                n == m * 10 + d,
                0 <= d < 10,
                m >= 1,
        ;
        assert(n >= 10) by (nonlinear_arith)
            requires
                n == m * 10 + d,
                m >= 1,
                d >= 0,
        ;
        lemma_digit_char_val(d);
        assert(digit_char(n % 10) == s.last());
        assert(udec(n) =~= udec(m).push(s.last()));
        assert(udec(n) =~= s);
    }
}

/// The exec counterpart of one digit's rendering.
fn digit_str(d: u64) -> (r: &'static str)
    requires
        d < 10,
    ensures
        r@ =~= seq![digit_char(d as nat)],
{
    proof {
        reveal_strlit("0");
        reveal_strlit("1");
        reveal_strlit("2");
        reveal_strlit("3");
        reveal_strlit("4");
        reveal_strlit("5");
        reveal_strlit("6");
        reveal_strlit("7");
        reveal_strlit("8");
        reveal_strlit("9");
    }
    match d {
        0 => "0",
        1 => "1",
        2 => "2",
        3 => "3",
        4 => "4",
        5 => "5",
        6 => "6",
        7 => "7",
        8 => "8",
        _ => "9",
    }
}

/// Why integer text failed to parse, mirroring the distinctions the
/// standard library's integer parsing draws.
#[derive(Clone, Copy, Debug, PartialEq, Eq, Structural)]
pub enum IntParseError {
    Empty,
    InvalidDigit,
    PosOverflow,
    NegOverflow,
}

/// The digit characters of a least-significant-first digit-value list,
/// written out most significant digit first.
spec fn digits_rev(ds: Seq<u64>) -> Seq<char>
    decreases ds.len(),
{
    if ds.len() == 0 {
        Seq::empty()
    } else {
        digits_rev(ds.drop_last()).insert(0, digit_char(ds.last() as nat))
    }
}

proof fn lemma_seq_push_concat(a: Seq<char>, c: char, b: Seq<char>)
    ensures
        a.push(c) + b =~= a + b.insert(0, c),
{
}

/// Renders a natural number in canonical decimal.
pub fn u64_to_string(n: u64) -> (s: String)
    ensures
        s@ == udec(n as nat),
{
    let mut digits: Vec<u64> = Vec::new();
    let mut m: u64 = n;
    loop
        invariant
            udec(n as nat) =~= udec(m as nat) + digits_rev(digits@),
            forall|i: int| 0 <= i < digits@.len() ==> #[trigger] digits@[i] < 10,
        decreases m,
    {
        let d: u64 = m % 10;
        let next: u64 = m / 10;
        let ghost old_digits = digits@;
        digits.push(d);
        assert(digits@.drop_last() =~= old_digits);
        assert(digits_rev(digits@) =~= digits_rev(old_digits).insert(0, digit_char(d as nat)));
        if next == 0 {
            assert(udec(m as nat) =~= seq![digit_char(m as nat)]);
            assert(udec(n as nat) =~= digits_rev(digits@)) by {
                assert(seq![digit_char(d as nat)] + digits_rev(old_digits) =~= digits_rev(
                    old_digits,
                ).insert(0, digit_char(d as nat)));
            }
            let mut s = String::new();
            let mut i: usize = digits.len();
            assert(digits@.take(i as int) =~= digits@);
            assert(s@ + digits_rev(digits@) =~= digits_rev(digits@));
            while i > 0
                invariant
                    i <= digits@.len(),
                    forall|j: int| 0 <= j < digits@.len() ==> #[trigger] digits@[j] < 10,
                    s@ + digits_rev(digits@.take(i as int)) =~= digits_rev(digits@),
                decreases i,
            {
                i = i - 1;
                let part = digit_str(digits[i]);
                let ghost pre = s@;
                s.append(part);
                proof {
                    let t1 = digits@.take(i + 1);
                    assert(t1.drop_last() =~= digits@.take(i as int));
                    assert(t1.last() == digits@[i as int]);
                    assert(digits_rev(t1) =~= digits_rev(digits@.take(i as int)).insert(
                        0,
                        digit_char(digits@[i as int] as nat),
                    ));
                    assert(s@ + digits_rev(digits@.take(i as int)) =~= pre + digits_rev(t1));
                }
            }
            assert(digits@.take(0) =~= Seq::<u64>::empty());
            assert(s@ =~= digits_rev(digits@));
            return s;
        } else {
            proof {
                assert(udec(m as nat) =~= udec(next as nat).push(digit_char((m % 10) as nat)));
                lemma_seq_push_concat(
                    udec(next as nat),
                    digit_char(d as nat),
                    digits_rev(old_digits),
                );
            }
            m = next;
        }
    }
}

/// Renders an integer in canonical decimal.
pub fn i64_to_string(n: i64) -> (s: String)
    ensures
        s@ == idec(n as int),
{
    if n >= 0 {
        u64_to_string(n as u64)
    } else {
        let m: u64 = (-(n as i128)) as u64;
        let mut s = String::from_str("-");
        proof {
            reveal_strlit("-");
        }
        let digits = u64_to_string(m);
        s.append(digits.as_str());
        assert(s@ =~= seq!['-'] + udec(m as nat));
        s
    }
}

/// The value of one digit character, in executable form.
fn digit_of(c: char) -> (r: Option<u32>)
    ensures
        match r {
            Some(d) => digit_val(c) == Some(d as nat),
            None => digit_val(c) is None,
        },
{
    match c {
        '0' => Some(0),
        '1' => Some(1),
        '2' => Some(2),
        '3' => Some(3),
        '4' => Some(4),
        '5' => Some(5),
        '6' => Some(6),
        '7' => Some(7),
        '8' => Some(8),
        '9' => Some(9),
        _ => None,
    }
}

/// One left-to-right scanning step at a time: the value of a digit
/// string read with an accumulator, stopping at the first bad digit or
/// at the first step whose value passes `limit`.
pub open spec fn scan_digits(s: Seq<char>, acc: nat, limit: nat) -> Result<nat, IntParseError>
    decreases s.len(),
{
    if s.len() == 0 {
        Ok(acc)
    } else if !is_digit(s[0]) {
        Err(IntParseError::InvalidDigit)
    } else if acc * 10 + dval(s[0]) > limit {
        Err(IntParseError::PosOverflow)
    } else {
        scan_digits(s.skip(1), (acc * 10 + dval(s[0])) as nat, limit)
    }
}

/// What `str::parse::<i32>` returns on a string: an optional sign, then
/// digits scanned left to right, the first offending character deciding
/// the error.
pub open spec fn parse_i32_spec(s: Seq<char>) -> Result<i32, IntParseError> {
    if s.len() == 0 {
        Err(IntParseError::Empty)
    } else {
        let neg = s[0] == '-';
        let rest = if s[0] == '-' || s[0] == '+' {
            s.skip(1)
        } else {
            s
        };
        if rest.len() == 0 {
            Err(IntParseError::InvalidDigit)
        } else {
            match scan_digits(rest, 0, if neg {
                0x8000_0000 as nat
            } else {
                0x7fff_ffff as nat
            }) {
                Ok(v) => Ok(
                    if neg {
                        (-(v as int)) as i32
                    } else {
                        v as i32
                    },
                ),
                Err(IntParseError::PosOverflow) => Err(
                    if neg {
                        IntParseError::NegOverflow
                    } else {
                        IntParseError::PosOverflow
                    },
                ),
                Err(e) => Err(e),
            }
        }
    }
}

/// Parses a decimal integer exactly as `str::parse::<i32>` does.
#[verifier::loop_isolation(false)]
pub fn parse_i32(s: &str) -> (r: Result<i32, IntParseError>)
    ensures
        r == parse_i32_spec(s@),
{
    let n = s.unicode_len();
    if n == 0 {
        return Err(IntParseError::Empty);
    }
    let c0 = s.get_char(0);
    let neg = c0 == '-';
    let signed = c0 == '-' || c0 == '+';
    let mut i: usize = if signed {
        1
    } else {
        0
    };
    let ghost rest = if signed {
        s@.skip(1)
    } else {
        s@
    };
    if i >= n {
        return Err(IntParseError::InvalidDigit);
    }
    let limit: u32 = if neg {
        0x8000_0000
    } else {
        0x7fff_ffff
    };
    let mut acc: u32 = 0;
    assert(s@.skip(i as int) =~= rest);
    while i < n
        invariant
            n == s@.len(),
            i <= n,
            acc <= limit,
            scan_digits(rest, 0, limit as nat) == scan_digits(
                s@.skip(i as int),
                acc as nat,
                limit as nat,
            ),
        decreases n - i,
    {
        let c = s.get_char(i);
        assert(s@.skip(i as int)[0] == c);
        match digit_of(c) {
            None => {
                return Err(IntParseError::InvalidDigit);
            },
            Some(d) => {
                if (acc as u64) * 10 + (d as u64) > (limit as u64) {
                    return if neg {
                        Err(IntParseError::NegOverflow)
                    } else {
                        Err(IntParseError::PosOverflow)
                    };
                }
                assert(s@.skip(i as int).skip(1) =~= s@.skip(i + 1));
                acc = acc * 10 + d;
                i = i + 1;
            },
        }
    }
    assert(s@.skip(i as int) =~= Seq::<char>::empty());
    if neg {
        Ok((-(acc as i64)) as i32)
    } else {
        Ok(acc as i32)
    }
}

/// What `str::parse::<u16>` returns on a string: an optional plus
/// sign, then digits scanned left to right; a minus sign is no digit
/// for an unsigned target.
pub open spec fn parse_u16_spec(s: Seq<char>) -> Result<u16, IntParseError> {
    if s.len() == 0 {
        Err(IntParseError::Empty)
    } else if s[0] == '-' {
        Err(IntParseError::InvalidDigit)
    } else {
        let rest = if s[0] == '+' {
            s.skip(1)
        } else {
            s
        };
        if rest.len() == 0 {
            Err(IntParseError::InvalidDigit)
        } else {
            match scan_digits(rest, 0, 0xffff as nat) {
                Ok(v) => Ok(v as u16),
                Err(e) => Err(e),
            }
        }
    }
}

/// Parses a decimal integer exactly as `str::parse::<u16>` does.
#[verifier::loop_isolation(false)]
pub fn parse_u16(s: &str) -> (r: Result<u16, IntParseError>)
    ensures
        r == parse_u16_spec(s@),
{
    let n = s.unicode_len();
    if n == 0 {
        return Err(IntParseError::Empty);
    }
    let c0 = s.get_char(0);
    if c0 == '-' {
        return Err(IntParseError::InvalidDigit);
    }
    let signed = c0 == '+';
    let mut i: usize = if signed {
        1
    } else {
        0
    };
    let ghost rest = if signed {
        s@.skip(1)
    } else {
        s@
    };
    if i >= n {
        return Err(IntParseError::InvalidDigit);
    }
    let mut acc: u32 = 0;
    assert(s@.skip(i as int) =~= rest);
    while i < n
        invariant
            i <= n,
            acc <= 0xffff,
            scan_digits(rest, 0, 0xffff as nat) == scan_digits(
                s@.skip(i as int),
                acc as nat,
                0xffff as nat,
            ),
        decreases n - i,
    {
        let c = s.get_char(i);
        assert(s@.skip(i as int)[0] == c);
        match digit_of(c) {
            None => {
                return Err(IntParseError::InvalidDigit);
            },
            Some(d) => {
                if acc * 10 + d > 0xffff {
                    return Err(IntParseError::PosOverflow);
                }
                assert(s@.skip(i as int).skip(1) =~= s@.skip(i + 1));
                acc = acc * 10 + d;
                i = i + 1;
            },
        }
    }
    assert(s@.skip(i as int) =~= Seq::<char>::empty());
    Ok(acc as u16)
}

/// Any prefix of a digit string is worth no more than the whole.
proof fn lemma_digits_val_monotone(s: Seq<char>, j: int)
    requires
        0 <= j <= s.len(),
    ensures
        digits_val(s.take(j)) <= digits_val(s),
    decreases s.len() - j,
{
    if j < s.len() {
        lemma_digits_val_monotone(s, j + 1);
        let t = s.take(j + 1);
        assert(t.drop_last() =~= s.take(j));
        assert(digits_val(t) == digits_val(s.take(j)) * 10 + dval(t.last()));
        assert(digits_val(s.take(j)) * 10 >= digits_val(s.take(j))) by (nonlinear_arith);
    } else {
        assert(s.take(j) =~= s);
    }
}

/// Parses a canonical digit string lying at `[from, to)` of `s`,
/// refusing values above `limit`.
#[verifier::loop_isolation(false)]
pub fn parse_canonical_u64(s: &str, from: usize, to: usize, limit: u64) -> (r: Option<u64>)
    requires
        from <= to <= s@.len(),
    ensures
        match r {
            Some(v) => valid_udec(s@.subrange(from as int, to as int)) && digits_val(
                s@.subrange(from as int, to as int),
            ) == v && v <= limit,
            None => !valid_udec(s@.subrange(from as int, to as int)) || digits_val(
                s@.subrange(from as int, to as int),
            ) > limit,
        },
{
    let ghost sub = s@.subrange(from as int, to as int);
    if from == to {
        return None;
    }
    if to - from > 1 && s.get_char(from) == '0' {
        assert(sub[0] == '0');
        return None;
    }
    let mut acc: u64 = 0;
    let mut i: usize = from;
    while i < to
        invariant
            from <= i <= to <= s@.len(),
            sub == s@.subrange(from as int, to as int),
            acc <= limit,
            digits_val(sub.take(i - from)) == acc,
            all_digits(sub.take(i - from)),
        decreases to - i,
    {
        let c = s.get_char(i);
        assert(sub[i - from] == c);
        match digit_of(c) {
            None => {
                assert(!all_digits(sub)) by {
                    assert(!is_digit(sub[i - from]));
                }
                return None;
            },
            Some(d) => {
                let ghost k = i - from;
                assert(sub.take(k + 1).drop_last() =~= sub.take(k));
                assert(sub.take(k + 1).last() == sub[k]);
                if (acc as u128) * 10 + (d as u128) > (limit as u128) {
                    proof {
                        lemma_digits_val_monotone(sub, k + 1);
                    }
                    return None;
                }
                acc = acc * 10 + (d as u64);
                i = i + 1;
            },
        }
    }
    assert(sub.take(to - from) =~= sub);
    Some(acc)
}

} // verus!
