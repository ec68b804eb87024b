//! Time expressions: `3.frames()`, `2.5.seconds()`, `7.days()`.
//!
//! An `advance` action names a span of simulated time. Reading one never
//! fails. Whatever is not understood counts as one frame: an expression of
//! another shape, a unit of another name, a receiver that is no number
//! literal. A literal of the other kind is converted: a whole number of
//! seconds is taken as it is, and of a fraction of frames or days the whole
//! part counts. A magnitude that cannot be held counts as one unit. Seconds
//! are kept as an exact decimal, so that the number of harness ticks in them
//! is exact too.

use crate::syntax::Expr;
use crate::text::{
    all_digits, decimal_number, digit_of, digit_value, number_of, parse_decimal, same_text,
};
use vstd::arithmetic::div_mod::{
    lemma_basic_div, lemma_div_pos_is_pos, lemma_fundamental_div_mod, lemma_mod_bound,
};
use vstd::prelude::*;
use vstd::string::*;

verus! {

/// Harness ticks in one simulated second.
pub const TICKS_PER_SECOND: u64 = 60;

/// Harness ticks in one simulated day.
pub const TICKS_PER_DAY: u64 = 10;

/// A non-negative decimal number: `mantissa / 10^scale`.
///
/// `2.5` is `Decimal { mantissa: 25, scale: 1 }`.
#[derive(Clone, Copy, PartialEq, Eq, Structural, Debug)]
pub struct Decimal {
    pub mantissa: u64,
    pub scale: u32,
}

/// A span of simulated time.
#[derive(Clone, Copy, PartialEq, Eq, Structural, Debug)]
pub enum TimeAdvance {
    Frames(u32),
    Seconds(Decimal),
    Days(u32),
}

/// Ten to the power of `n`.
pub open spec fn pow10(n: nat) -> nat
    decreases n,
{
    if n == 0 {
        1
    } else {
        10 * pow10((n - 1) as nat)
    }
}

/// Powers of ten are positive and grow with the exponent.
pub proof fn lemma_pow10_grows(a: nat, b: nat)
    requires
        a <= b,
    ensures
        0 < pow10(a) <= pow10(b),
    decreases b,
{
    if b == 0 {
    } else if a == b {
        lemma_pow10_grows(0, (b - 1) as nat);
    } else {
        lemma_pow10_grows(a, (b - 1) as nat);
    }
}

impl Decimal {
    /// The number one.
    pub open spec fn one() -> Decimal {
        Decimal { mantissa: 1, scale: 0 }
    }

    /// The whole part of `self` times `factor`.
    pub open spec fn times_floor(self, factor: nat) -> nat {
        ((self.mantissa * factor) / (pow10(self.scale as nat) as int)) as nat
    }

    /// The whole part of `self` times `factor`.
    pub fn floor_times(&self, factor: u64) -> (r: u128)
        ensures
            r == self.times_floor(factor as nat),
    {
        assert(self.mantissa * factor <= u64::MAX * u64::MAX) by (nonlinear_arith)
            requires
                self.mantissa <= u64::MAX,
                factor <= u64::MAX,
        ;
        let total: u128 = self.mantissa as u128 * (factor as u128);
        let mut power: u128 = 1;
        let mut k: u32 = 0;
        if total == 0 {
            proof {
                lemma_pow10_grows(0, self.scale as nat);
                lemma_basic_div(0, pow10(self.scale as nat) as int);
            }
            return 0;
        }
        while k < self.scale
            invariant
                k <= self.scale,
                power == pow10(k as nat),
                0 < power <= total,
                total == self.mantissa * factor,
            decreases self.scale - k,
        {
            if power > total / 10 {
                proof {
                    assert(pow10((k + 1) as nat) > total);
                    lemma_pow10_grows((k + 1) as nat, self.scale as nat);
                    lemma_basic_div(total as int, pow10(self.scale as nat) as int);
                }
                return 0;
            }
            power = power * 10;
            k = k + 1;
        }
        total / power
    }
}

impl TimeAdvance {
    /// How many harness ticks the span takes: a frame is one tick, a day is
    /// ten, and a second is sixty, of which only whole ticks count.
    pub open spec fn ticks(self) -> nat {
        match self {
            TimeAdvance::Frames(n) => n as nat,
            TimeAdvance::Seconds(s) => s.times_floor(TICKS_PER_SECOND as nat),
            TimeAdvance::Days(n) => n as nat * TICKS_PER_DAY as nat,
        }
    }

    /// How many harness ticks the span takes.
    pub fn tick_count(&self) -> (r: u128)
        ensures
            r == self.ticks(),
    {
        match self {
            TimeAdvance::Frames(n) => *n as u128,
            TimeAdvance::Days(n) => {
                let days: u128 = *n as u128;
                let each: u128 = TICKS_PER_DAY as u128;
                assert(days <= u32::MAX && each == 10);
                days * each
            },
            TimeAdvance::Seconds(s) => s.floor_times(TICKS_PER_SECOND),
        }
    }
}

/// The ticks in a number of seconds are its sixtyfold, rounded down: the
/// largest whole number of ticks that the seconds hold.
pub proof fn lemma_ticks_round_down(seconds: Decimal)
    ensures
        TimeAdvance::Seconds(seconds).ticks() * pow10(seconds.scale as nat) <= seconds.mantissa
            * 60,
        seconds.mantissa * 60 < (TimeAdvance::Seconds(seconds).ticks() + 1) * pow10(
            seconds.scale as nat,
        ),
{
    let total = seconds.mantissa * 60;
    let unit = pow10(seconds.scale as nat) as int;
    lemma_pow10_grows(0, seconds.scale as nat);
    lemma_fundamental_div_mod(total, unit);
    lemma_mod_bound(total, unit);
    lemma_div_pos_is_pos(total, unit);
    let ticks = total / unit;
    assert(TimeAdvance::Seconds(seconds).ticks() == ticks);
    assert(ticks * unit == unit * ticks) by (nonlinear_arith);
    assert((ticks + 1) * unit == unit * ticks + unit) by (nonlinear_arith);
}

/// The kind of thing that a method is called on.
#[derive(Clone, Copy, PartialEq, Eq, Structural, Debug)]
pub enum Receiver {
    /// An integer literal.
    Integer,
    /// A floating-point literal.
    Float,
    /// Anything else.
    Other,
}

/// A method call as far as a time expression is concerned: the method's
/// name, the kind of the receiver and, where the receiver is a number
/// literal, its digits in base ten.
#[derive(Clone, PartialEq, Eq, Debug)]
pub struct MethodCall {
    pub method: String,
    pub receiver: Receiver,
    pub digits: String,
}

/// The mathematical model of a [`MethodCall`].
pub struct Call {
    pub method: Seq<char>,
    pub receiver: Receiver,
    pub digits: Seq<char>,
}

impl DeepView for MethodCall {
    type V = Call;

    open spec fn deep_view(&self) -> Call {
        Call { method: self.method@, receiver: self.receiver, digits: self.digits@ }
    }
}

/// The method call that an expression's text is, or `None` where the text is
/// no expression or an expression of another form. The tokens of the text
/// are those that the lexer of `proc_macro2` itself reads.
pub uninterp spec fn method_call_of(text: Seq<char>) -> Option<Call>;

/// Reads a text as an expression with `syn::parse_str` and tells whether it
/// is a method call.
///
/// For a `syn::Expr::MethodCall` the result holds the method's name and the
/// kind of the receiver; where the receiver is a `syn::Lit::Int` or a
/// `syn::Lit::Float`, also the literal's `base10_digits`. The contract names
/// the outcome; it is `None` where `syn` reports an error or reads another
/// form of expression. The whole of the work stands between
/// `proc_macro2::fallback::force` and `unforce`, so that the lexer of
/// `proc_macro2` itself reads the text whatever the process is.
#[verifier::external_body]
fn method_call(text: &str) -> (r: Option<MethodCall>)
    ensures
        match r {
            Some(call) => method_call_of(text@) == Some(call.deep_view()),
            None => method_call_of(text@) is None,
        },
{
    proc_macro2::fallback::force();
    let found = match syn::parse_str::<syn::Expr>(text) {
        Ok(syn::Expr::MethodCall(call)) => {
            let (receiver, digits) = match *call.receiver {
                syn::Expr::Lit(syn::ExprLit { lit: syn::Lit::Int(n), .. }) => (Receiver::Integer, n.base10_digits().to_string()),
                syn::Expr::Lit(syn::ExprLit { lit: syn::Lit::Float(f), .. }) => (Receiver::Float, f.base10_digits().to_string()),
                _ => (Receiver::Other, String::new()),
            };
            Some(MethodCall { method: call.method.to_string(), receiver, digits })
        },
        _ => None,
    };
    proc_macro2::fallback::unforce();
    found
}

/// How many digits stand at the start of `s`.
pub open spec fn leading_digits(s: Seq<char>) -> nat
    decreases s.len(),
{
    if s.len() > 0 && digit_value(s[0]) is Some {
        1 + leading_digits(s.skip(1))
    } else {
        0
    }
}

/// The digits at the start of a text end where the first other character
/// stands.
pub proof fn lemma_leading_digits(s: Seq<char>, k: int)
    requires
        0 <= k <= s.len(),
        all_digits(s.take(k)),
        k == s.len() || digit_value(s[k]) is None,
    ensures
        leading_digits(s) == k,
    decreases k,
{
    if k > 0 {
        assert(s.take(k)[0] == s[0]);
        let rest = s.skip(1);
        assert forall|i: int| 0 <= i < k - 1 implies (#[trigger] digit_value(
            rest.take(k - 1)[i],
        )) is Some by {
            assert(rest.take(k - 1)[i] == s.take(k)[i + 1]);
        }
        lemma_leading_digits(rest, k - 1);
    }
}

/// The decimal `mantissa * 10^(exponent - fraction)`: with as many digits
/// behind the point as are left once the exponent is taken off the
/// fraction, or, where the exponent is the larger, as a whole number.
/// `None` where a [`Decimal`] cannot hold it.
pub open spec fn scaled(mantissa: nat, fraction: nat, exponent: int) -> Option<Decimal> {
    let scale = fraction - exponent;
    if scale >= 0 {
        if mantissa <= u64::MAX && scale <= u32::MAX {
            Some(Decimal { mantissa: mantissa as u64, scale: scale as u32 })
        } else {
            None
        }
    } else {
        let whole = mantissa * pow10((-scale) as nat);
        if whole <= u64::MAX {
            Some(Decimal { mantissa: whole as u64, scale: 0 })
        } else {
            None
        }
    }
}

/// What an exponent means, written behind the `e` of a decimal literal: an
/// optional `-` and one or more digits, the number being at most the largest
/// of 32 bits.
pub open spec fn exponent_of(s: Seq<char>) -> Option<int> {
    if s.len() > 0 && s[0] == '-' {
        match decimal_number(s.skip(1), u32::MAX as nat) {
            Some(n) => Some(-(n as int)),
            None => None,
        }
    } else {
        match decimal_number(s, u32::MAX as nat) {
            Some(n) => Some(n as int),
            None => None,
        }
    }
}

/// Where the fraction of a decimal literal starts: behind the whole part
/// and the point, if a point stands there.
pub open spec fn fraction_start(s: Seq<char>) -> int {
    let whole = leading_digits(s) as int;
    if whole < s.len() && s[whole] == '.' {
        whole + 1
    } else {
        whole
    }
}

/// Where the fraction of a decimal literal ends.
pub open spec fn fraction_end(s: Seq<char>) -> int {
    fraction_start(s) + leading_digits(s.skip(fraction_start(s)))
}

/// The digits of a decimal literal before its exponent: those of the whole
/// part and those of the fraction.
pub open spec fn written_digits(s: Seq<char>) -> Seq<char> {
    s.take(leading_digits(s) as int) + s.subrange(fraction_start(s), fraction_end(s))
}

/// What the digits of a decimal literal mean. The text is a whole part of one
/// or more digits; then, optionally, a point and a fraction of digits; then,
/// optionally, an `e` and an exponent. `None` for any other text, and where
/// a [`Decimal`] cannot hold the number.
pub open spec fn decimal_of(s: Seq<char>) -> Option<Decimal> {
    let end = fraction_end(s);
    let places = (end - fraction_start(s)) as nat;
    if leading_digits(s) == 0 {
        None
    } else if end == s.len() {
        scaled(number_of(written_digits(s)), places, 0)
    } else if s[end] == 'e' {
        match exponent_of(s.skip(end + 1)) {
            Some(exponent) => scaled(number_of(written_digits(s)), places, exponent),
            None => None,
        }
    } else {
        None
    }
}

fn is_digit_at(text: &str, k: usize) -> (r: bool)
    requires
        k < text@.len(),
    ensures
        r == (digit_value(text@[k as int]) is Some),
{
    digit_of(text.get_char(k)).is_some()
}

/// The place behind the digits that stand at place `start` of a text.
fn digits_end(text: &str, start: usize) -> (end: usize)
    requires
        start <= text@.len(),
    ensures
        start <= end <= text@.len(),
        end - start == leading_digits(text@.skip(start as int)),
        all_digits(text@.subrange(start as int, end as int)),
{
    let len = text.unicode_len();
    let ghost rest = text@.skip(start as int);
    let mut k: usize = start;
    assert(rest.take(0) =~= Seq::<char>::empty());
    while k < len && is_digit_at(text, k)
        invariant
            start <= k <= len,
            len == text@.len(),
            rest == text@.skip(start as int),
            all_digits(rest.take(k - start)),
        decreases len - k,
    {
        proof {
            assert forall|i: int| 0 <= i < k + 1 - start implies (#[trigger] digit_value(
                rest.take(k + 1 - start)[i],
            )) is Some by {
                if i < k - start {
                    assert(rest.take(k - start)[i] == rest.take(k + 1 - start)[i]);
                }
            }
        }
        k += 1;
    }
    proof {
        lemma_leading_digits(rest, k - start);
        assert(text@.subrange(start as int, k as int) =~= rest.take(k - start));
    }
    k
}

/// Multiplying by a larger power of ten gives no less.
proof fn lemma_pow10_product_grows(m: nat, a: nat, b: nat)
    requires
        a <= b,
    ensures
        m * pow10(a) <= m * pow10(b),
{
    lemma_pow10_grows(a, b);
    assert(m * pow10(a) <= m * pow10(b)) by (nonlinear_arith)
        requires
            pow10(a) <= pow10(b),
    ;
}

fn scale(mantissa: u64, fraction: usize, negative: bool, exponent: u32) -> (r: Option<Decimal>)
    ensures
        r == scaled(
            mantissa as nat,
            fraction as nat,
            if negative {
                -(exponent as int)
            } else {
                exponent as int
            },
        ),
{
    if negative || exponent as u128 <= fraction as u128 {
        let places: u128 = if negative {
            fraction as u128 + exponent as u128
        } else {
            fraction as u128 - exponent as u128
        };
        if places <= u32::MAX as u128 {
            Some(Decimal { mantissa, scale: places as u32 })
        } else {
            None
        }
    } else {
        let shift: u32 = (exponent as u128 - fraction as u128) as u32;
        if mantissa == 0 {
            assert(0 * pow10(shift as nat) == 0) by (nonlinear_arith);
            return Some(Decimal { mantissa: 0, scale: 0 });
        }
        let mut whole: u64 = mantissa;
        let mut k: u32 = 0;
        assert(mantissa * pow10(0) == mantissa) by (nonlinear_arith)
            requires
                pow10(0) == 1,
        ;
        while k < shift
            invariant
                k <= shift,
                whole == mantissa * pow10(k as nat),
                mantissa > 0,
                !negative,
                shift == exponent - fraction,
            decreases shift - k,
        {
            proof {
                assert(mantissa * pow10((k + 1) as nat) == (mantissa * pow10(k as nat)) * 10)
                    by (nonlinear_arith)
                    requires
                        pow10((k + 1) as nat) == 10 * pow10(k as nat),
                ;
            }
            if whole > u64::MAX / 10 {
                proof {
                    lemma_pow10_product_grows(mantissa as nat, (k + 1) as nat, shift as nat);
                }
                return None;
            }
            whole = whole * 10;
            k = k + 1;
        }
        Some(Decimal { mantissa: whole, scale: 0 })
    }
}

fn parse_exponent(text: &str, from: usize) -> (r: Option<(bool, u32)>)
    requires
        from <= text@.len(),
    ensures
        match r {
            Some((negative, n)) => exponent_of(text@.skip(from as int)) == Some(
                if negative {
                    -(n as int)
                } else {
                    n as int
                },
            ),
            None => exponent_of(text@.skip(from as int)) is None,
        },
{
    let len = text.unicode_len();
    let negative = from < len && text.get_char(from) == '-';
    let start = if negative {
        from + 1
    } else {
        from
    };
    proof {
        assert(text@.subrange(start as int, len as int) =~= text@.skip(start as int));
        if negative {
            assert(text@.skip(from as int).skip(1) =~= text@.skip(start as int));
        }
    }
    match parse_decimal(text.substring_char(start, len), u32::MAX as u64) {
        Some(n) => Some((negative, n as u32)),
        None => None,
    }
}

/// Digits followed by digits are digits.
proof fn lemma_digits_joined(front: Seq<char>, back: Seq<char>)
    requires
        all_digits(front),
        all_digits(back),
    ensures
        all_digits(front + back),
{
    let joined = front + back;
    assert forall|i: int| 0 <= i < joined.len() implies (#[trigger] digit_value(
        joined[i],
    )) is Some by {
        if i < front.len() {
            assert(joined[i] == front[i]);
        } else {
            assert(joined[i] == back[i - front.len()]);
        }
    }
}

/// A mantissa that does not fit 64 bits fits no [`Decimal`], whatever the
/// exponent.
proof fn lemma_mantissa_too_large(mantissa: nat, fraction: nat, exponent: int)
    requires
        mantissa > u64::MAX,
    ensures
        scaled(mantissa, fraction, exponent) is None,
{
    let scale = fraction - exponent;
    if scale < 0 {
        let shift = (-scale) as nat;
        lemma_pow10_grows(0, shift);
        assert(mantissa * pow10(shift) >= mantissa) by (nonlinear_arith)
            requires
                pow10(shift) >= 1,
        ;
    }
}

/// The parts of a decimal literal before its exponent.
struct Written {
    /// The digits of the whole part and of the fraction.
    digits: String,
    /// Where the fraction starts.
    start: usize,
    /// Where the fraction ends.
    end: usize,
}

/// Finds the whole part and the fraction of a decimal literal; `None` where
/// the text does not start with a digit.
fn written(text: &str) -> (r: Option<Written>)
    ensures
        match r {
            Some(parts) => {
                &&& leading_digits(text@) > 0
                &&& parts.start == fraction_start(text@)
                &&& parts.end == fraction_end(text@)
                &&& parts.start <= parts.end <= text@.len()
                &&& parts.digits@ == written_digits(text@)
                &&& all_digits(parts.digits@)
                &&& parts.digits@.len() > 0
            },
            None => leading_digits(text@) == 0,
        },
{
    let len = text.unicode_len();
    let whole = digits_end(text, 0);
    assert(text@.skip(0) =~= text@);
    if whole == 0 {
        return None;
    }
    let start = if whole < len && text.get_char(whole) == '.' {
        whole + 1
    } else {
        whole
    };
    let end = digits_end(text, start);
    let mut digits = String::from_str(text.substring_char(0, whole));
    digits.append(text.substring_char(start, end));
    proof {
        assert(text@.subrange(0, whole as int) =~= text@.take(whole as int));
        lemma_digits_joined(
            text@.subrange(0, whole as int),
            text@.subrange(start as int, end as int),
        );
    }
    Some(Written { digits, start, end })
}

/// Reads the digits of a decimal literal.
pub fn parse_fraction(text: &str) -> (r: Option<Decimal>)
    ensures
        r == decimal_of(text@),
{
    let parts = match written(text) {
        Some(parts) => parts,
        None => {
            return None;
        },
    };
    let places = parts.end - parts.start;
    let negative_exponent = if parts.end == text.unicode_len() {
        (false, 0)
    } else if text.get_char(parts.end) == 'e' {
        match parse_exponent(text, parts.end + 1) {
            Some(found) => found,
            None => {
                return None;
            },
        }
    } else {
        return None;
    };
    match parse_decimal(parts.digits.as_str(), u64::MAX) {
        Some(mantissa) => scale(mantissa, places, negative_exponent.0, negative_exponent.1),
        None => {
            proof {
                lemma_mantissa_too_large(
                    number_of(parts.digits@),
                    places as nat,
                    if negative_exponent.0 {
                        -(negative_exponent.1 as int)
                    } else {
                        negative_exponent.1 as int
                    },
                );
            }
            None
        },
    }
}

/// The name of one of the three units, in the singular or the plural.
pub open spec fn is_unit(method: Seq<char>, singular: Seq<char>, plural: Seq<char>) -> bool {
    method == singular || method == plural
}

/// What a number of frames or days means, given the digits of a number
/// literal and whether the literal is a floating-point one: the number that
/// the digits of an integer literal write, or the whole part of the decimal
/// that the digits of a floating-point literal write; one where the number
/// does not fit 32 bits or the decimal cannot be held.
pub open spec fn count_of(float: bool, digits: Seq<char>) -> u32 {
    if float {
        match decimal_of(digits) {
            Some(d) => if d.times_floor(1) <= u32::MAX {
                d.times_floor(1) as u32
            } else {
                1
            },
            None => 1,
        }
    } else {
        match decimal_number(digits, u32::MAX as nat) {
            Some(n) => n as u32,
            None => 1,
        }
    }
}

/// What a number of seconds means, given the digits of a number literal and
/// whether the literal is a floating-point one: the decimal that the digits
/// write, a whole number for an integer literal; one where a [`Decimal`]
/// cannot hold it.
pub open spec fn seconds_of(float: bool, digits: Seq<char>) -> Decimal {
    if float {
        match decimal_of(digits) {
            Some(d) => d,
            None => Decimal::one(),
        }
    } else {
        match decimal_number(digits, u64::MAX as nat) {
            Some(n) => Decimal { mantissa: n as u64, scale: 0 },
            None => Decimal::one(),
        }
    }
}

/// The span of time that an expression names, given the method call that it
/// is, if it is one: the method's name picks the unit and the receiver, a
/// number literal, gives the magnitude. Anything else is one frame: what is
/// no method call, a call on what is no number literal, whatever the method,
/// and a method that names no unit.
pub open spec fn time_advance(call: Option<Call>) -> TimeAdvance {
    match call {
        None => TimeAdvance::Frames(1),
        Some(call) => {
            let float = call.receiver == Receiver::Float;
            if call.receiver == Receiver::Other {
                TimeAdvance::Frames(1)
            } else if is_unit(call.method, "frame"@, "frames"@) {
                TimeAdvance::Frames(count_of(float, call.digits))
            } else if is_unit(call.method, "second"@, "seconds"@) {
                TimeAdvance::Seconds(seconds_of(float, call.digits))
            } else if is_unit(call.method, "day"@, "days"@) {
                TimeAdvance::Days(count_of(float, call.digits))
            } else {
                TimeAdvance::Frames(1)
            }
        },
    }
}

fn count(float: bool, digits: &str) -> (r: u32)
    ensures
        r == count_of(float, digits@),
{
    if float {
        match parse_fraction(digits) {
            Some(d) => {
                let whole = d.floor_times(1);
                if whole <= u32::MAX as u128 {
                    whole as u32
                } else {
                    1
                }
            },
            None => 1,
        }
    } else {
        match parse_decimal(digits, u32::MAX as u64) {
            Some(n) => n as u32,
            None => 1,
        }
    }
}

fn seconds(float: bool, digits: &str) -> (r: Decimal)
    ensures
        r == seconds_of(float, digits@),
{
    let one = Decimal { mantissa: 1, scale: 0 };
    if float {
        match parse_fraction(digits) {
            Some(d) => d,
            None => one,
        }
    } else {
        match parse_decimal(digits, u64::MAX) {
            Some(n) => Decimal { mantissa: n, scale: 0 },
            None => one,
        }
    }
}

/// The span of time that a method call names, or one frame where there is no
/// call.
pub fn time_advance_of(call: &Option<MethodCall>) -> (r: TimeAdvance)
    ensures
        r == time_advance(call.deep_view()),
{
    match call {
        None => TimeAdvance::Frames(1),
        Some(call) => {
            let method = call.method.as_str();
            let digits = call.digits.as_str();
            let float = match call.receiver {
                Receiver::Other => {
                    return TimeAdvance::Frames(1);
                },
                Receiver::Float => true,
                Receiver::Integer => false,
            };
            if same_text(method, "frame") || same_text(method, "frames") {
                TimeAdvance::Frames(count(float, digits))
            } else if same_text(method, "second") || same_text(method, "seconds") {
                TimeAdvance::Seconds(seconds(float, digits))
            } else if same_text(method, "day") || same_text(method, "days") {
                TimeAdvance::Days(count(float, digits))
            } else {
                TimeAdvance::Frames(1)
            }
        },
    }
}

/// Classifies an expression as a span of time.
pub fn parse_time_advance(expr: &Expr) -> (r: TimeAdvance)
    ensures
        r == time_advance(method_call_of(expr.deep_view())),
{
    let call = method_call(expr.text.as_str());
    time_advance_of(&call)
}

} // verus!
