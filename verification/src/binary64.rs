//! The binary64 format, as far as the engine has to look inside a word:
//! a few constants, the number that a word encodes, and the order of two
//! numbers.

use vstd::prelude::*;
use vstd::arithmetic::mul::{lemma_mul_inequality, lemma_mul_strict_inequality};
use vstd::arithmetic::power2::{
    lemma2_to64, lemma2_to64_rest, lemma_pow2_adds, lemma_pow2_pos,
    lemma_pow2_strictly_increases, lemma_pow2_unfold, pow2,
};

verus! {

/// The word of `+0.0`.
pub const ZERO: u64 = 0;

/// The word of `2.0`.
pub const TWO: u64 = 0x4000_0000_0000_0000;

/// The word of `-2.0`.
pub const MINUS_TWO: u64 = 0xC000_0000_0000_0000;

/// The word of the binary64 number nearest to the circle constant.
pub const PI: u64 = 0x4009_21FB_5444_2D18;

/// The sign bit of a word.
pub const SIGN_BIT: u64 = 0x8000_0000_0000_0000;

/// The word of positive infinity; every larger magnitude is a NaN.
pub const INFINITY: u64 = 0x7FF0_0000_0000_0000;

/// The word of the NaN that stands for every NaN where one word is wanted.
pub const QUIET_NAN: u64 = 0x7FF8_0000_0000_0000;

/// Whether the sign bit of `word` is set.
pub open spec fn spec_is_negative(word: u64) -> bool {
    word >= SIGN_BIT
}

/// The word without its sign bit.
pub open spec fn spec_magnitude(word: u64) -> u64 {
    if word >= SIGN_BIT {
        (word - SIGN_BIT) as u64
    } else {
        word
    }
}

/// Whether `word` encodes a NaN.
pub open spec fn spec_is_nan(word: u64) -> bool {
    spec_magnitude(word) > INFINITY
}

/// A word with its NaN settled: a word that encodes a number is left as it
/// is, and every NaN becomes the one `QUIET_NAN`.
pub open spec fn spec_settled(word: u64) -> u64 {
    if spec_is_nan(word) {
        QUIET_NAN
    } else {
        word
    }
}

/// Whether `word` encodes `+0.0` or `-0.0`.
pub open spec fn is_zero(word: u64) -> bool {
    spec_magnitude(word) == 0
}

/// The number of values that the fraction field of a word can take, `2^52`.
pub const FRACTION_RANGE: u64 = 0x0010_0000_0000_0000;

/// The exponent field of a word: its eleven bits below the sign.
pub open spec fn exponent_field(word: u64) -> nat {
    (spec_magnitude(word) / FRACTION_RANGE) as nat
}

/// The fraction field of a word: its low fifty-two bits.
pub open spec fn fraction_field(word: u64) -> nat {
    (spec_magnitude(word) % FRACTION_RANGE) as nat
}

/// The size of the number that a word encodes, counted in units of
/// `2^-1074`, the smallest positive binary64 number. With an exponent field
/// of 0 the number is subnormal and its size is the fraction field; otherwise
/// an implicit leading bit stands before the fraction, and each step of the
/// exponent doubles the size. Infinity stands, by the same rule, at `2^2098`
/// units, above every finite number. The size of a NaN means nothing.
pub open spec fn size(word: u64) -> nat {
    if exponent_field(word) == 0 {
        fraction_field(word)
    } else {
        ((FRACTION_RANGE + fraction_field(word)) * pow2((exponent_field(word) - 1) as nat)) as nat
    }
}

/// The number that a word encodes, in units of `2^-1074`: its size, with the
/// sign that the sign bit gives it. The two zeros encode the same number.
pub open spec fn value(word: u64) -> int {
    if spec_is_negative(word) {
        -(size(word) as int)
    } else {
        size(word) as int
    }
}

/// The numeric order `a < b`: the order of the numbers that the two words
/// encode, and false as soon as either of them is a NaN.
pub open spec fn spec_less_than(a: u64, b: u64) -> bool {
    !spec_is_nan(a) && !spec_is_nan(b) && value(a) < value(b)
}

/// The numeric test `word > 0`, which is the order against `+0.0`: a set
/// sign bit, a zero and a NaN all fail it; positive infinity passes.
pub open spec fn spec_is_strictly_positive(word: u64) -> bool {
    spec_less_than(ZERO, word)
}

/// The size of the number one, in the units that sizes are counted in.
pub open spec fn one() -> nat {
    pow2(1074)
}

/// The word of `-x` for the word of `x`: the same word with the other sign.
pub open spec fn spec_negated(word: u64) -> u64 {
    if word >= SIGN_BIT {
        (word - SIGN_BIT) as u64
    } else {
        (word + SIGN_BIT) as u64
    }
}

/// The word of the number `n`: the one without a sign that encodes `n`
/// exactly.
pub open spec fn spec_word_of_count(n: u32) -> u64 {
    choose|word: u64| !spec_is_negative(word) && value(word) == n * one()
}

/// Tells whether the sign bit is set.
#[verifier::when_used_as_spec(spec_is_negative)]
pub fn is_negative(word: u64) -> (r: bool)
    ensures
        r == spec_is_negative(word),
{
    word >= SIGN_BIT
}

/// Clears the sign bit.
#[verifier::when_used_as_spec(spec_magnitude)]
pub fn magnitude(word: u64) -> (r: u64)
    ensures
        r == spec_magnitude(word),
{
    if word >= SIGN_BIT {
        word - SIGN_BIT
    } else {
        word
    }
}

/// Tells whether the word encodes a NaN.
#[verifier::when_used_as_spec(spec_is_nan)]
pub fn is_nan(word: u64) -> (r: bool)
    ensures
        r == spec_is_nan(word),
{
    magnitude(word) > INFINITY
}

/// A word with the larger magnitude encodes the number of the larger size:
/// the encoding keeps the order of the sizes.
pub proof fn lemma_size_grows_with_magnitude(a: u64, b: u64)
    requires
        spec_magnitude(a) < spec_magnitude(b),
    ensures
        size(a) < size(b),
{
    let range = FRACTION_RANGE as int;
    let ea = exponent_field(a);
    let eb = exponent_field(b);
    let fa = fraction_field(a) as int;
    let fb = fraction_field(b) as int;
    assert(spec_magnitude(a) == ea * range + fa && spec_magnitude(b) == eb * range + fb);
    assert(0 <= fa < range && 0 <= fb < range);
    assert(ea <= eb) by (nonlinear_arith)
        requires
            ea * range + fa < eb * range + fb,
            0 <= fa < range,
            0 <= fb < range,
    ;
    if ea == eb {
        if ea > 0 {
            lemma_pow2_pos((ea - 1) as nat);
            lemma_mul_strict_inequality(range + fa, range + fb, pow2((ea - 1) as nat) as int);
        }
    } else if ea == 0 {
        lemma_pow2_pos((eb - 1) as nat);
        lemma_mul_inequality(1, pow2((eb - 1) as nat) as int, range + fb);
        assert(1 * (range + fb) == range + fb);
        assert(pow2((eb - 1) as nat) * (range + fb) == (range + fb) * pow2((eb - 1) as nat))
            by (nonlinear_arith);
    } else {
        let low = pow2((ea - 1) as nat) as int;
        let high = pow2((eb - 1) as nat) as int;
        lemma_pow2_pos((ea - 1) as nat);
        lemma_pow2_unfold(ea);
        assert(pow2(ea) == 2 * low);
        if ea < eb - 1 {
            lemma_pow2_strictly_increases(ea, (eb - 1) as nat);
        }
        assert(2 * low <= high);
        lemma_mul_strict_inequality(range + fa, 2 * range, low);
        assert((2 * range) * low == range * (2 * low)) by (nonlinear_arith);
        lemma_mul_inequality(2 * low, high, range);
        assert((2 * low) * range == range * (2 * low)) by (nonlinear_arith);
        assert(high * range <= (range + fb) * high) by (nonlinear_arith)
            requires
                0 <= fb,
                0 < high,
        ;
    }
}

/// Settles the NaN of a word.
#[verifier::when_used_as_spec(spec_settled)]
pub fn settled(word: u64) -> (r: u64)
    ensures
        r == spec_settled(word),
        spec_is_nan(r) == spec_is_nan(word),
        spec_settled(r) == r,
{
    if is_nan(word) {
        QUIET_NAN
    } else {
        word
    }
}

/// Compares two numbers by their words: by magnitude where the signs agree,
/// by sign where they differ and the two are not both zero.
#[verifier::when_used_as_spec(spec_less_than)]
pub fn less_than(a: u64, b: u64) -> (r: bool)
    ensures
        r == spec_less_than(a, b),
{
    if is_nan(a) || is_nan(b) {
        return false;
    }
    let a_size: u64 = magnitude(a);
    let b_size: u64 = magnitude(b);
    proof {
        if a_size < b_size {
            lemma_size_grows_with_magnitude(a, b);
        }
        if b_size < a_size {
            lemma_size_grows_with_magnitude(b, a);
        }
        if a_size > 0 {
            lemma_size_grows_with_magnitude(0, a);
        }
        if b_size > 0 {
            lemma_size_grows_with_magnitude(0, b);
        }
    }
    if is_negative(a) {
        if is_negative(b) {
            b_size < a_size
        } else {
            a_size > 0 || b_size > 0
        }
    } else {
        if is_negative(b) {
            false
        } else {
            a_size < b_size
        }
    }
}

/// The strictly positive numbers are the words from the one after `+0.0` up
/// to positive infinity.
pub proof fn lemma_strictly_positive_words(word: u64)
    ensures
        spec_is_strictly_positive(word) <==> 0 < word <= INFINITY,
{
    if 0 < spec_magnitude(word) {
        lemma_size_grows_with_magnitude(0, word);
    }
}

/// Tells whether a number is greater than zero.
#[verifier::when_used_as_spec(spec_is_strictly_positive)]
pub fn is_strictly_positive(word: u64) -> (r: bool)
    ensures
        r == spec_is_strictly_positive(word),
{
    proof {
        lemma_strictly_positive_words(word);
    }
    0 < word && word <= INFINITY
}

/// Negates a number: the sign bit changes, and nothing else. So the
/// number encoded changes its sign, and a NaN stays a NaN.
#[verifier::when_used_as_spec(spec_negated)]
pub fn negated(word: u64) -> (r: u64)
    ensures
        r == spec_negated(word),
        spec_magnitude(r) == spec_magnitude(word),
        spec_is_negative(r) != spec_is_negative(word),
        value(r) == -value(word),
{
    if word >= SIGN_BIT {
        word - SIGN_BIT
    } else {
        word + SIGN_BIT
    }
}

/// Two words without a sign that encode the same number are the same word.
pub proof fn lemma_value_names_one_word(a: u64, b: u64)
    requires
        !spec_is_negative(a),
        !spec_is_negative(b),
        value(a) == value(b),
    ensures
        a == b,
{
    if spec_magnitude(a) < spec_magnitude(b) {
        lemma_size_grows_with_magnitude(a, b);
    }
    if spec_magnitude(b) < spec_magnitude(a) {
        lemma_size_grows_with_magnitude(b, a);
    }
}

/// The word of a count, which is exact: every count that fits in 32 bits is
/// a binary64 number.
#[verifier::when_used_as_spec(spec_word_of_count)]
pub fn word_of_count(n: u32) -> (r: u64)
    ensures
        r == spec_word_of_count(n),
        !spec_is_negative(r),
        !spec_is_nan(r),
        value(r) == n * one(),
{
    if n == 0 {
        proof {
            assert(n * one() == 0) by (nonlinear_arith)
                requires
                    n == 0,
            ;
            assert(!spec_is_negative(0) && value(0) == n * one());
            lemma_value_names_one_word(0, spec_word_of_count(n));
        }
        return 0;
    }
    let count: u64 = n as u64;
    let mut exponent: u64 = 0;
    let mut power: u64 = 1;
    proof {
        lemma2_to64();
    }
    while power * 2 <= count
        invariant
            power == pow2(exponent as nat),
            1 <= power <= count,
            count < 0x1_0000_0000,
            exponent <= 31,
        decreases count - power,
    {
        proof {
            lemma_pow2_unfold((exponent + 1) as nat);
            if exponent + 1 > 31 {
                lemma2_to64();
                if exponent + 1 > 32 {
                    lemma_pow2_strictly_increases(32, (exponent + 1) as nat);
                }
            }
        }
        power = power * 2;
        exponent = exponent + 1;
    }
    proof {
        lemma2_to64_rest();
        lemma_pow2_adds((52 - exponent) as nat, exponent as nat);
        lemma_pow2_pos((52 - exponent) as nat);
    }
    let ghost shift = pow2((52 - exponent) as nat) as int;
    assert(FRACTION_RANGE == shift * power);
    assert((shift * power) / (power as int) == shift) by (nonlinear_arith)
        requires
            power > 0,
    ;
    let scale: u64 = FRACTION_RANGE / power;
    assert(scale == shift);
    assert((count - power) * scale < FRACTION_RANGE && count * scale == FRACTION_RANGE + (count
        - power) * scale) by (nonlinear_arith)
        requires
            power <= count < 2 * power,
            scale * power == FRACTION_RANGE,
            scale > 0,
    ;
    let fraction: u64 = (count - power) * scale;
    let word: u64 = (1023 + exponent) * FRACTION_RANGE + fraction;
    proof {
        assert(spec_magnitude(word) == word);
        assert(exponent_field(word) == 1023 + exponent);
        assert(fraction_field(word) == fraction);
        lemma_pow2_adds((52 - exponent) as nat, (1022 + exponent) as nat);
        let lift = pow2((1022 + exponent) as nat) as int;
        assert(size(word) == (FRACTION_RANGE + fraction) * lift);
        assert((count * scale) * lift == count * (scale * lift)) by (nonlinear_arith);
        assert(size(word) == n * one());
        lemma_pow2_pos(1074);
        assert(n * one() > 0) by (nonlinear_arith)
            requires
                n > 0,
                one() > 0,
        ;
        let named = spec_word_of_count(n);
        assert(!spec_is_negative(word) && value(word) == n * one());
        lemma_value_names_one_word(word, named);
    }
    word
}

/// The constants are the words of their numbers: zero, two and minus two.
pub proof fn lemma_constants_encode_their_numbers()
    ensures
        value(ZERO) == 0,
        value(TWO) == 2 * one(),
        value(MINUS_TWO) == -2 * one(),
        ZERO == word_of_count(0),
        TWO == word_of_count(2),
        MINUS_TWO == negated(word_of_count(2)),
{
    lemma2_to64_rest();
    lemma_pow2_adds(52, 1023);
    lemma_pow2_unfold(1075);
    assert(exponent_field(TWO) == 1024 && fraction_field(TWO) == 0);
    assert(exponent_field(MINUS_TWO) == 1024 && fraction_field(MINUS_TWO) == 0);
    assert(size(TWO) == 2 * one());
    assert(size(MINUS_TWO) == 2 * one());
    assert(0 * one() == 0);
    assert(!spec_is_negative(ZERO) && value(ZERO) == 0 * one());
    lemma_value_names_one_word(ZERO, word_of_count(0));
    assert(!spec_is_negative(TWO) && value(TWO) == 2 * one());
    lemma_value_names_one_word(TWO, word_of_count(2));
}

} // verus!
