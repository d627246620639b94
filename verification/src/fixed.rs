//! Reading a decimal number as millionths.
//!
//! A number is written as JSON writes it: an optional `-`, one or more
//! digits, an optional fraction of a point and one or more digits, and an
//! optional exponent of `e` or `E`, an optional sign and one or more digits.
//! Its value in millionths is rounded towards minus infinity.

use vstd::prelude::*;
use vstd::string::*;
use vstd::utf8::is_ascii_chars;

use crate::decimal::all_digits;
use crate::decimal::digit_of;
use crate::decimal::digits_value;
use crate::decimal::digits_value_is_natural;
use crate::decimal::is_digit;
use crate::units::Micros;

verus! {

/// Ten to the power `n`.
pub open spec fn pow10(n: nat) -> int
    decreases n,
{
    if n == 0 {
        1
    } else {
        10 * pow10((n - 1) as nat)
    }
}

/// The number of digits that a number may have, apart from zeros in front:
/// the digits must write a number below ten to this power.
pub const MAX_DIGITS: u32 = 38;

/// Decimal places in a millionth.
pub const MICRO_PLACES: u32 = 6;

/// The index at which the run of digits that starts at `from` ends: the
/// first index from `from` on that holds no digit, or the length of `s`.
pub open spec fn digit_end(s: Seq<char>, from: int) -> int
    decreases s.len() - from,
{
    if 0 <= from < s.len() && is_digit(s[from]) {
        digit_end(s, from + 1)
    } else {
        from
    }
}

/// `mantissa` times ten to the power `shift`, rounded towards minus infinity.
pub open spec fn scaled(mantissa: int, shift: int) -> int {
    if shift >= 0 {
        mantissa * pow10(shift as nat)
    } else {
        mantissa / pow10((-shift) as nat)
    }
}

/// The parts of a written number.
pub struct Decimal {
    /// Whether the number starts with `-`.
    pub negative: bool,
    /// The digits before and after the point, in the order written.
    pub digits: Seq<char>,
    /// The number of digits after the point.
    pub fraction: int,
    /// The exponent, zero where none is written.
    pub exponent: int,
}

impl Decimal {
    /// The number written by the digits, not regarding sign, point and
    /// exponent.
    pub open spec fn mantissa(self) -> int {
        digits_value(self.digits)
    }

    /// The value of the number in millionths, rounded towards minus
    /// infinity.
    pub open spec fn micros(self) -> int {
        let signed = if self.negative {
            -self.mantissa()
        } else {
            self.mantissa()
        };
        scaled(signed, self.exponent - self.fraction + MICRO_PLACES)
    }
}

/// Where the parts of the number written in `s` lie.
pub struct Places {
    /// The index of the first digit.
    pub start: int,
    /// The index after the last digit before the point.
    pub int_end: int,
    /// The index of the first digit after the point.
    pub frac_start: int,
    /// The index after the last digit after the point.
    pub frac_end: int,
    /// Whether an exponent follows.
    pub has_exponent: bool,
    /// Whether the exponent is written with `-`.
    pub exponent_negative: bool,
    /// The index of the first digit of the exponent.
    pub exp_start: int,
}

/// Where the parts of the number would lie in `s`, if `s` writes a number.
pub open spec fn places_of(s: Seq<char>) -> Places {
    let start: int = if s.len() > 0 && s[0] == '-' {
        1
    } else {
        0
    };
    let int_end = digit_end(s, start);
    let has_point = int_end < s.len() && s[int_end] == '.';
    let frac_start = if has_point {
        int_end + 1
    } else {
        int_end
    };
    let frac_end = if has_point {
        digit_end(s, frac_start)
    } else {
        int_end
    };
    let has_exponent = frac_end < s.len() && (s[frac_end] == 'e' || s[frac_end] == 'E');
    let signed = has_exponent && frac_end + 1 < s.len() && (s[frac_end + 1] == '-' || s[frac_end
        + 1] == '+');
    Places {
        start,
        int_end,
        frac_start,
        frac_end,
        has_exponent,
        exponent_negative: signed && s[frac_end + 1] == '-',
        exp_start: if signed {
            frac_end + 2
        } else {
            frac_end + 1
        },
    }
}

/// The digits of the exponent written in `s`.
pub open spec fn exponent_digits(s: Seq<char>) -> Seq<char> {
    let at = places_of(s);
    if at.has_exponent && at.exp_start <= s.len() {
        s.subrange(at.exp_start, s.len() as int)
    } else {
        Seq::empty()
    }
}

/// Whether `s` writes a number: digits, then perhaps a fraction, then perhaps
/// an exponent, and nothing else.
pub open spec fn is_number(s: Seq<char>) -> bool {
    let at = places_of(s);
    &&& at.int_end > at.start
    &&& at.frac_start > at.int_end ==> at.frac_end > at.frac_start
    &&& if at.has_exponent {
        exponent_digits(s).len() > 0 && all_digits(exponent_digits(s))
    } else {
        at.frac_end == s.len()
    }
}

/// The parts of the number written in `s`.
pub open spec fn decimal_of(s: Seq<char>) -> Decimal {
    let at = places_of(s);
    let exponent = digits_value(exponent_digits(s));
    Decimal {
        negative: at.start == 1,
        digits: s.subrange(at.start, at.int_end) + s.subrange(at.frac_start, at.frac_end),
        fraction: at.frac_end - at.frac_start,
        exponent: if at.exponent_negative {
            -exponent
        } else {
            exponent
        },
    }
}

/// The millionths that the text `s` writes, if it writes a number whose
/// digits are few enough and whose millionths fit in 64 bits.
pub open spec fn decimal_micros(s: Seq<char>) -> Option<Micros> {
    let number = decimal_of(s);
    if is_number(s) && number.mantissa() < pow10(MAX_DIGITS as nat) && i64::MIN <= number.micros()
        <= i64::MAX {
        Some(Micros { raw: number.micros() as i64 })
    } else {
        None
    }
}

/// Powers of ten are positive and grow with the exponent.
pub proof fn pow10_grows(a: nat, b: nat)
    requires
        a <= b,
    ensures
        0 < pow10(a) <= pow10(b),
    decreases b,
{
    if b > a {
        pow10_grows(a, (b - 1) as nat);
    } else if a > 0 {
        pow10_grows((a - 1) as nat, (a - 1) as nat);
    }
}

/// The run of digits from `from` ends within `s`, holds digits only, and is
/// followed by no digit.
pub proof fn digit_end_bounds(s: Seq<char>, from: int)
    requires
        0 <= from <= s.len(),
    ensures
        from <= digit_end(s, from) <= s.len(),
        forall|i: int| from <= i < digit_end(s, from) ==> is_digit(#[trigger] s[i]),
        digit_end(s, from) < s.len() ==> !is_digit(s[digit_end(s, from)]),
    decreases s.len() - from,
{
    if from < s.len() && is_digit(s[from]) {
        digit_end_bounds(s, from + 1);
    }
}

/// Within a run of digits, the run ends where it ends from its start.
pub proof fn digit_end_within(s: Seq<char>, from: int, at: int)
    requires
        0 <= from <= at <= s.len(),
        forall|i: int| from <= i < at ==> is_digit(#[trigger] s[i]),
    ensures
        digit_end(s, from) == digit_end(s, at),
    decreases at - from,
{
    if from < at {
        assert(is_digit(s[from]));
        digit_end_within(s, from + 1, at);
    }
}

/// One more digit after `digits` makes ten times their number plus the digit.
pub proof fn digits_value_push(digits: Seq<char>, c: char)
    ensures
        digits_value(digits.push(c)) == digits_value(digits) * 10 + digit_of(c),
{
    assert(digits.push(c).drop_last() =~= digits);
}

/// The powers of ten that the limits of the machine are compared with.
pub proof fn pow10_landmarks()
    ensures
        pow10(0) == 1,
        pow10(6) == 1_000_000,
        pow10(19) == 10_000_000_000_000_000_000,
        pow10(20) == 100_000_000_000_000_000_000,
        pow10(38) == 100_000_000_000_000_000_000_000_000_000_000_000_000,
{
    reveal_with_fuel(pow10, 40);
}

/// Ten to the power `n`, for the powers that fit in 128 bits.
pub fn power_of_ten(n: u32) -> (power: u128)
    requires
        n <= MAX_DIGITS,
    ensures
        power == pow10(n as nat),
        1 <= power <= 100_000_000_000_000_000_000_000_000_000_000_000_000,
{
    proof {
        pow10_landmarks();
    }
    let mut power: u128 = 1;
    let mut i: u32 = 0;
    while i < n
        invariant
            i <= n <= MAX_DIGITS,
            power == pow10(i as nat),
            1 <= power,
            pow10(MAX_DIGITS as nat) == 100_000_000_000_000_000_000_000_000_000_000_000_000,
        decreases n - i,
    {
        proof {
            pow10_grows((i + 1) as nat, MAX_DIGITS as nat);
        }
        power = power * 10;
        i = i + 1;
    }
    proof {
        pow10_grows(n as nat, MAX_DIGITS as nat);
    }
    power
}

/// Whether the bytes `bytes` are the characters `s`, all of them ASCII.
pub open spec fn spells(bytes: Seq<u8>, s: Seq<char>) -> bool {
    &&& bytes.len() == s.len()
    &&& forall|k: int|
        #![trigger bytes[k]]
        #![trigger s[k]]
        0 <= k < s.len() ==> '\0' <= s[k] <= '\u{7f}' && bytes[k] == s[k] as u8
}

/// The shift from which on every number but zero is too large for 64 bits.
pub const FAR_SHIFT_UP: i128 = 20;

/// The shift from which on every number of few enough digits is less than a
/// millionth.
pub const FAR_SHIFT_DOWN: i128 = -38;

/// A number shifted far up does not fit in 64 bits, and one shifted far down
/// is less than one: zero, or minus one when rounded down from below zero.
pub proof fn scaled_far(mantissa: int, shift: int)
    requires
        0 < mantissa < pow10(MAX_DIGITS as nat),
    ensures
        shift >= FAR_SHIFT_UP ==> scaled(mantissa, shift) > i64::MAX && scaled(-mantissa, shift)
            < i64::MIN,
        shift <= FAR_SHIFT_DOWN ==> scaled(mantissa, shift) == 0 && scaled(-mantissa, shift) == -1,
{
    pow10_landmarks();
    if shift >= FAR_SHIFT_UP {
        let power = pow10(shift as nat);
        pow10_grows(20, shift as nat);
        assert(mantissa * power >= power) by (nonlinear_arith)
            requires
                mantissa >= 1,
                power > 0,
        ;
        assert((-mantissa) * power <= -power) by (nonlinear_arith)
            requires
                mantissa >= 1,
                power > 0,
        ;
    }
    if shift <= FAR_SHIFT_DOWN {
        let power = pow10((-shift) as nat);
        pow10_grows(38, (-shift) as nat);
        vstd::arithmetic::div_mod::lemma_fundamental_div_mod_converse(mantissa, power, 0, mantissa);
        vstd::arithmetic::div_mod::lemma_fundamental_div_mod_converse(
            -mantissa,
            power,
            -1,
            power - mantissa,
        );
    }
}

/// Rounding down the negative of a number that was divided with a rest.
pub proof fn floor_of_negative(mantissa: int, power: int)
    requires
        0 <= mantissa,
        0 < power,
    ensures
        (-mantissa) / power == if mantissa % power == 0 {
            -(mantissa / power)
        } else {
            -(mantissa / power) - 1
        },
{
    let q = mantissa / power;
    let r = mantissa % power;
    vstd::arithmetic::div_mod::lemma_fundamental_div_mod(mantissa, power);
    vstd::arithmetic::div_mod::lemma_mod_bound(mantissa, power);
    if r == 0 {
        assert(-mantissa == (-q) * power + 0) by (nonlinear_arith)
            requires
                mantissa == power * q + r,
                r == 0,
        ;
        vstd::arithmetic::div_mod::lemma_fundamental_div_mod_converse(-mantissa, power, -q, 0);
    } else {
        assert(-mantissa == (-q - 1) * power + (power - r)) by (nonlinear_arith)
            requires
                mantissa == power * q + r,
        ;
        vstd::arithmetic::div_mod::lemma_fundamental_div_mod_converse(
            -mantissa,
            power,
            -q - 1,
            power - r,
        );
    }
}

/// Zero shifted by any number of places is zero.
pub proof fn zero_stays_zero(shift: int)
    ensures
        scaled(0, shift) == 0,
{
    if shift < 0 {
        pow10_grows(0, (-shift) as nat);
        vstd::arithmetic::div_mod::lemma_fundamental_div_mod_converse(
            0,
            pow10((-shift) as nat),
            0,
            0,
        );
    } else {
        assert(0 * pow10(shift as nat) == 0);
    }
}

/// The millionths of a number of the given sign and digits, shifted by
/// `shift` decimal places, where they fit in 64 bits.
pub open spec fn settled(negative: bool, mantissa: int, shift: int) -> Option<Micros> {
    let value = scaled(
        if negative {
            -mantissa
        } else {
            mantissa
        },
        shift,
    );
    if i64::MIN <= value <= i64::MAX {
        Some(Micros { raw: value as i64 })
    } else {
        None
    }
}

/// Shifts a number by `shift` decimal places and rounds it down to whole
/// millionths.
pub fn settle(negative: bool, mantissa: u128, shift: i128) -> (micros: Option<Micros>)
    requires
        mantissa < pow10(MAX_DIGITS as nat),
    ensures
        micros == settled(negative, mantissa as int, shift as int),
{
    proof {
        pow10_landmarks();
        pow10_grows(0, 0);
    }
    if mantissa == 0 {
        proof {
            zero_stays_zero(shift as int);
        }
        return Some(Micros { raw: 0 });
    }
    proof {
        scaled_far(mantissa as int, shift as int);
    }
    if shift >= FAR_SHIFT_UP {
        None
    } else if shift <= FAR_SHIFT_DOWN {
        if negative {
            Some(Micros { raw: -1 })
        } else {
            Some(Micros { raw: 0 })
        }
    } else if shift >= 0 {
        let power: u128 = power_of_ten(shift as u32);
        if mantissa > 0x8000_0000_0000_0000 {
            proof {
                assert(mantissa * power >= mantissa) by (nonlinear_arith)
                    requires
                        power >= 1,
                        mantissa >= 0,
                ;
                assert((-(mantissa as int)) * power <= -(mantissa as int)) by (nonlinear_arith)
                    requires
                        power >= 1,
                        mantissa >= 0,
                ;
            }
            return None;
        }
        proof {
            pow10_grows(shift as nat, 19);
            assert(mantissa * power <= 0x8000_0000_0000_0000 * 10_000_000_000_000_000_000)
                by (nonlinear_arith)
                requires
                    0 <= mantissa <= 0x8000_0000_0000_0000,
                    0 <= power <= 10_000_000_000_000_000_000,
            ;
            assert((-(mantissa as int)) * power == -(mantissa * power)) by (nonlinear_arith);
        }
        let product: u128 = mantissa * power;
        if negative {
            if product > 0x8000_0000_0000_0000 {
                None
            } else if product == 0x8000_0000_0000_0000 {
                Some(Micros { raw: i64::MIN })
            } else {
                Some(Micros { raw: -(product as i64) })
            }
        } else {
            if product > 0x7fff_ffff_ffff_ffff {
                None
            } else {
                Some(Micros { raw: product as i64 })
            }
        }
    } else {
        let power: u128 = power_of_ten((-shift) as u32);
        let quotient: u128 = mantissa / power;
        let rest: u128 = mantissa % power;
        proof {
            floor_of_negative(mantissa as int, power as int);
        }
        if negative {
            let down: u128 = if rest == 0 {
                quotient
            } else {
                quotient + 1
            };
            if down > 0x8000_0000_0000_0000 {
                None
            } else if down == 0x8000_0000_0000_0000 {
                Some(Micros { raw: i64::MIN })
            } else {
                Some(Micros { raw: -(down as i64) })
            }
        } else {
            if quotient > 0x7fff_ffff_ffff_ffff {
                None
            } else {
                Some(Micros { raw: quotient as i64 })
            }
        }
    }
}

/// Whether `byte` is one of the digits `0` to `9`.
fn is_digit_byte(byte: u8) -> (yes: bool)
    ensures
        yes == (48 <= byte <= 57),
{
    48 <= byte && byte <= 57
}

/// A byte of an ASCII text is a digit where the character is one.
proof fn digit_byte_is_digit(bytes: Seq<u8>, s: Seq<char>, k: int)
    requires
        spells(bytes, s),
        0 <= k < s.len(),
    ensures
        (48 <= bytes[k] <= 57) == is_digit(s[k]),
        (bytes[k] == 45) == (s[k] == '-'),
        (bytes[k] == 43) == (s[k] == '+'),
        (bytes[k] == 46) == (s[k] == '.'),
        (bytes[k] == 101) == (s[k] == 'e'),
        (bytes[k] == 69) == (s[k] == 'E'),
{
    assert(bytes[k] == s[k] as u8);
    assert('\0' <= s[k] <= '\u{7f}');
}

/// Finds the end of the run of digits that starts at `from`.
fn scan_digits(bytes: &[u8], from: usize, Ghost(s): Ghost<Seq<char>>) -> (end: usize)
    requires
        spells(bytes@, s),
        from <= bytes@.len(),
    ensures
        end == digit_end(s, from as int),
        from <= end <= bytes@.len(),
        forall|k: int| from <= k < end ==> is_digit(#[trigger] s[k]),
        end < bytes@.len() ==> !is_digit(s[end as int]),
{
    let mut end: usize = from;
    while end < bytes.len() && is_digit_byte(bytes[end])
        invariant
            spells(bytes@, s),
            from <= end <= bytes@.len(),
            forall|k: int| from <= k < end ==> is_digit(#[trigger] s[k]),
        decreases bytes@.len() - end,
    {
        proof {
            digit_byte_is_digit(bytes@, s, end as int);
        }
        end = end + 1;
    }
    proof {
        digit_end_within(s, from as int, end as int);
        if end < bytes@.len() {
            digit_byte_is_digit(bytes@, s, end as int);
        }
    }
    end
}

/// What is known of a number that is being read digit by digit: either its
/// value so far, or that it has reached the limit of digits.
pub open spec fn tracks(value: u128, saturated: bool, digits: Seq<char>) -> bool {
    &&& all_digits(digits)
    &&& !saturated ==> value == digits_value(digits) && value < pow10(MAX_DIGITS as nat)
    &&& saturated ==> digits_value(digits) >= pow10(MAX_DIGITS as nat)
}

/// Reads the digits from `from` to `to` as a continuation of the number read
/// so far.
fn read_digits(
    bytes: &[u8],
    from: usize,
    to: usize,
    so_far: u128,
    was_saturated: bool,
    Ghost(s): Ghost<Seq<char>>,
    Ghost(before): Ghost<Seq<char>>,
) -> (read: (u128, bool))
    requires
        spells(bytes@, s),
        from <= to <= bytes@.len(),
        forall|k: int| from <= k < to ==> is_digit(#[trigger] s[k]),
        tracks(so_far, was_saturated, before),
    ensures
        tracks(read.0, read.1, before + s.subrange(from as int, to as int)),
{
    proof {
        pow10_landmarks();
    }
    let mut value: u128 = so_far;
    let mut saturated: bool = was_saturated;
    let mut i: usize = from;
    assert(before + s.subrange(from as int, from as int) =~= before);
    while i < to
        invariant
            spells(bytes@, s),
            from <= i <= to <= bytes@.len(),
            forall|k: int| from <= k < to ==> is_digit(#[trigger] s[k]),
            tracks(value, saturated, before + s.subrange(from as int, i as int)),
            pow10(MAX_DIGITS as nat) == 100_000_000_000_000_000_000_000_000_000_000_000_000,
        decreases to - i,
    {
        let byte: u8 = bytes[i];
        let ghost digits = before + s.subrange(from as int, i as int);
        let ghost more = before + s.subrange(from as int, i + 1);
        proof {
            assert(is_digit(s[i as int]));
            digit_byte_is_digit(bytes@, s, i as int);
            assert(more =~= digits.push(s[i as int]));
            digits_value_push(digits, s[i as int]);
            digits_value_is_natural(digits);
            assert forall|k: int| 0 <= k < more.len() implies is_digit(#[trigger] more[k]) by {
                if k < digits.len() {
                    assert(more[k] == digits[k]);
                }
            }
        }
        if !saturated {
            if value >= 10_000_000_000_000_000_000_000_000_000_000_000_000 {
                saturated = true;
            } else {
                value = value * 10 + (byte - 48) as u128;
            }
        }
        i = i + 1;
    }
    (value, saturated)
}

/// Every character of a number is an ASCII character.
pub proof fn number_is_ascii(s: Seq<char>)
    requires
        is_number(s),
    ensures
        is_ascii_chars(s),
{
    let at = places_of(s);
    digit_end_bounds(s, at.start);
    if at.frac_start > at.int_end {
        digit_end_bounds(s, at.frac_start);
    }
    assert forall|i: int| 0 <= i < s.len() implies '\0' <= #[trigger] s[i] <= '\u{7f}' by {
        if i < at.start {
        } else if i < at.int_end {
            assert(is_digit(s[i]));
        } else if i < at.frac_start {
        } else if i < at.frac_end {
            assert(is_digit(s[i]));
        } else if i < at.exp_start {
        } else {
            assert(is_digit(exponent_digits(s)[i - at.exp_start]));
        }
    }
}

/// Where the parts of a number were found.
struct Found {
    start: usize,
    int_end: usize,
    frac_start: usize,
    frac_end: usize,
    exp_start: usize,
    exponent_negative: bool,
}

impl Found {
    /// Whether the places found are those of the number written in `s`.
    spec fn agrees(self, s: Seq<char>) -> bool {
        let at = places_of(s);
        &&& self.start == at.start
        &&& self.int_end == at.int_end
        &&& self.frac_start == at.frac_start
        &&& self.frac_end == at.frac_end
        &&& self.exponent_negative == at.exponent_negative
        &&& self.start < self.int_end <= self.frac_start <= self.frac_end <= self.exp_start
            <= s.len()
        &&& exponent_digits(s) == s.subrange(self.exp_start as int, s.len() as int)
        &&& forall|k: int| self.start <= k < self.int_end ==> is_digit(#[trigger] s[k])
        &&& forall|k: int| self.frac_start <= k < self.frac_end ==> is_digit(#[trigger] s[k])
        &&& forall|k: int| self.exp_start <= k < s.len() ==> is_digit(#[trigger] s[k])
    }
}

/// Finds the parts of the number that the bytes write, if they write one.
fn find_places(bytes: &[u8], Ghost(s): Ghost<Seq<char>>) -> (found: Option<Found>)
    requires
        spells(bytes@, s),
    ensures
        found is Some == is_number(s),
        found matches Some(places) ==> places.agrees(s),
{
    let n: usize = bytes.len();
    let ghost at = places_of(s);
    proof {
        if n > 0 {
            digit_byte_is_digit(bytes@, s, 0);
        }
    }
    let start: usize = if n > 0 && bytes[0] == 45 {
        1
    } else {
        0
    };
    let int_end: usize = scan_digits(bytes, start, Ghost(s));
    if int_end == start {
        return None;
    }
    proof {
        if int_end < n {
            digit_byte_is_digit(bytes@, s, int_end as int);
        }
    }
    let has_point: bool = int_end < n && bytes[int_end] == 46;
    let frac_start: usize = if has_point {
        int_end + 1
    } else {
        int_end
    };
    let frac_end: usize = if has_point {
        scan_digits(bytes, frac_start, Ghost(s))
    } else {
        int_end
    };
    if has_point && frac_end == frac_start {
        return None;
    }
    proof {
        if frac_end < n {
            digit_byte_is_digit(bytes@, s, frac_end as int);
        }
        if frac_end + 1 < n {
            digit_byte_is_digit(bytes@, s, frac_end + 1);
        }
    }
    let has_exponent: bool = frac_end < n && (bytes[frac_end] == 101 || bytes[frac_end] == 69);
    if !has_exponent {
        if frac_end != n {
            return None;
        }
        assert(exponent_digits(s) =~= s.subrange(n as int, n as int));
        return Some(
            Found { start, int_end, frac_start, frac_end, exp_start: n, exponent_negative: false },
        );
    }
    let signed: bool = frac_end + 1 < n && (bytes[frac_end + 1] == 45 || bytes[frac_end + 1]
        == 43);
    let exponent_negative: bool = signed && bytes[frac_end + 1] == 45;
    let exp_start: usize = if signed {
        frac_end + 2
    } else {
        frac_end + 1
    };
    let exp_end: usize = scan_digits(bytes, exp_start, Ghost(s));
    assert(exponent_digits(s) =~= s.subrange(exp_start as int, n as int));
    if exp_end != n || exp_start == n {
        proof {
            if exp_end != n {
                assert(exponent_digits(s)[exp_end - exp_start] == s[exp_end as int]);
            }
        }
        return None;
    }
    assert forall|k: int| 0 <= k < exponent_digits(s).len() implies is_digit(
        #[trigger] exponent_digits(s)[k],
    ) by {
        assert(is_digit(s[exp_start + k]));
    }
    Some(Found { start, int_end, frac_start, frac_end, exp_start, exponent_negative })
}

/// Reads the millionths that `text` writes. A text that is no number, a
/// number of too many digits, and one whose millionths do not fit in 64
/// bits give `None`.
pub fn parse_micros(text: &str) -> (micros: Option<Micros>)
    ensures
        micros == decimal_micros(text@),
{
    let ghost s = text@;
    if !text.is_ascii() {
        proof {
            if is_number(s) {
                number_is_ascii(s);
            }
        }
        return None;
    }
    proof {
        is_ascii_spec_bytes(text);
    }
    let bytes = text.as_bytes();
    assert(spells(bytes@, s));
    let places = match find_places(bytes, Ghost(s)) {
        Some(places) => places,
        None => {
            return None;
        },
    };
    proof {
        pow10_landmarks();
    }
    let ghost empty = Seq::<char>::empty();
    let ghost whole = s.subrange(places.start as int, places.int_end as int);
    assert(empty + whole =~= whole);
    assert(empty + exponent_digits(s) =~= exponent_digits(s));
    let (whole_value, whole_saturated) = read_digits(
        bytes,
        places.start,
        places.int_end,
        0,
        false,
        Ghost(s),
        Ghost(empty),
    );
    let (mantissa, saturated) = read_digits(
        bytes,
        places.frac_start,
        places.frac_end,
        whole_value,
        whole_saturated,
        Ghost(s),
        Ghost(whole),
    );
    if saturated {
        return None;
    }
    let (exponent, exponent_saturated) = read_digits(
        bytes,
        places.exp_start,
        bytes.len(),
        0,
        false,
        Ghost(s),
        Ghost(empty),
    );
    let negative: bool = places.start == 1;
    if exponent_saturated {
        proof {
            let shift = decimal_of(s).exponent - decimal_of(s).fraction + MICRO_PLACES;
            if mantissa > 0 {
                scaled_far(mantissa as int, shift);
                if places.exponent_negative {
                    scaled_far(mantissa as int, FAR_SHIFT_DOWN as int);
                } else {
                    scaled_far(mantissa as int, FAR_SHIFT_UP as int);
                }
            } else {
                zero_stays_zero(shift);
                zero_stays_zero(FAR_SHIFT_DOWN as int);
                zero_stays_zero(FAR_SHIFT_UP as int);
            }
        }
        if places.exponent_negative {
            settle(negative, mantissa, FAR_SHIFT_DOWN)
        } else {
            settle(negative, mantissa, FAR_SHIFT_UP)
        }
    } else {
        let fraction: i128 = (places.frac_end - places.frac_start) as i128;
        let shift: i128 = if places.exponent_negative {
            -(exponent as i128) - fraction + MICRO_PLACES as i128
        } else {
            exponent as i128 - fraction + MICRO_PLACES as i128
        };
        settle(negative, mantissa, shift)
    }
}

} // verus!
