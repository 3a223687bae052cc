//! Sample-rate conversion by linear interpolation.
//!
//! The positions are exact: output sample `i` sits at source position
//! `i * from_rate / to_rate`, a whole part and a remainder over `to_rate`.
//! How two neighbouring samples are blended is up to the caller, so the same
//! code serves floating-point samples and 16-bit PCM.

use vstd::prelude::*;
use vstd::slice::*;

verus! {

/// The rate that the speech engine expects, in samples per second.
pub const TARGET_RATE: u32 = 16000;

/// Whether a sequence of `len` samples at `from_rate` can be brought to
/// `to_rate`: a source rate of zero has no meaning unless nothing is to be
/// converted.
pub open spec fn convertible(len: nat, from_rate: u32, to_rate: u32) -> bool {
    from_rate == to_rate || from_rate > 0 || len == 0
}

/// The number of samples after conversion: `floor(len * to_rate / from_rate)`.
pub open spec fn resampled_len(len: nat, from_rate: u32, to_rate: u32) -> nat {
    if from_rate == to_rate {
        len
    } else if from_rate == 0 {
        0
    } else {
        (len * to_rate / (from_rate as int)) as nat
    }
}

/// The whole part of the source position of output sample `i`.
pub open spec fn source_index(i: int, from_rate: u32, to_rate: u32) -> int {
    i * from_rate / (to_rate as int)
}

/// The fractional part of the source position of output sample `i`, as a
/// count of `to_rate`-ths.
pub open spec fn source_fraction(i: int, from_rate: u32, to_rate: u32) -> int {
    i * from_rate % (to_rate as int)
}

/// The neighbour above `lo`, kept inside a sequence of `len` samples.
pub open spec fn upper_index(lo: int, len: int) -> int {
    if lo + 1 < len {
        lo + 1
    } else {
        len - 1
    }
}

/// Where one output sample comes from: the two source samples around its
/// position and the weight `num / den` of the upper one.
#[derive(Debug, Clone, Copy, PartialEq, Eq)]
pub struct Tap {
    pub lo: usize,
    pub hi: usize,
    pub num: u32,
    pub den: u32,
}

/// Every output position lies inside the input.
pub proof fn lemma_source_in_range(i: int, len: nat, from_rate: u32, to_rate: u32)
    requires
        from_rate > 0,
        from_rate != to_rate,
        0 <= i < resampled_len(len, from_rate, to_rate),
    ensures
        to_rate > 0,
        len > 0,
        0 <= source_index(i, from_rate, to_rate) < len,
        0 <= source_fraction(i, from_rate, to_rate) < to_rate,
{
    let f = from_rate as int;
    let t = to_rate as int;
    let n = (len * t) / f;
    assert(n * f <= len * t) by (nonlinear_arith)
        requires
            n == (len * t) / f,
            f > 0,
    ;
    assert((i + 1) * f <= n * f) by (nonlinear_arith)
        requires
            i + 1 <= n,
            f > 0,
    ;
    assert(i * f + f == (i + 1) * f) by (nonlinear_arith);
    assert(0 <= i * f) by (nonlinear_arith)
        requires
            0 <= i,
            0 < f,
    ;
    assert(t > 0 && len > 0) by (nonlinear_arith)
        requires
            0 < len * t,
            0 <= t,
            0 <= len,
    ;
    assert(0 <= (i * f) / t < len) by (nonlinear_arith)
        requires
            0 <= i * f < len * t,
            t > 0,
    ;
    assert(0 <= (i * f) % t < t) by (nonlinear_arith)
        requires
            t > 0,
    ;
}

/// The number of samples that [`resample`] returns for an input of `len`
/// samples, or `None` where the conversion has no meaning or its result
/// would be longer than any buffer can be.
pub fn output_len(len: usize, from_rate: u32, to_rate: u32) -> (count: Option<usize>)
    ensures
        count is Some <==> convertible(len as nat, from_rate, to_rate) && resampled_len(
            len as nat,
            from_rate,
            to_rate,
        ) <= usize::MAX,
        count matches Some(n) ==> n == resampled_len(len as nat, from_rate, to_rate),
{
    if from_rate == to_rate {
        return Some(len);
    }
    if from_rate == 0 {
        return if len == 0 {
            Some(0)
        } else {
            None
        };
    }
    assert(len * to_rate <= 0xffff_ffff_ffff_ffff * 0xffff_ffff) by (nonlinear_arith)
        requires
            0 <= len <= 0xffff_ffff_ffff_ffff,
            0 <= to_rate <= 0xffff_ffff,
    ;
    let scaled: u128 = len as u128 * to_rate as u128;
    let count: u128 = scaled / from_rate as u128;
    if count > usize::MAX as u128 {
        None
    } else {
        Some(count as usize)
    }
}

/// Where output sample `i` comes from in an input of `len` samples.
pub fn tap(i: usize, len: usize, from_rate: u32, to_rate: u32) -> (at: Tap)
    requires
        to_rate > 0,
        source_index(i as int, from_rate, to_rate) < len,
    ensures
        at.lo == source_index(i as int, from_rate, to_rate),
        at.hi == upper_index(at.lo as int, len as int),
        at.num == source_fraction(i as int, from_rate, to_rate),
        at.den == to_rate,
        at.lo <= at.hi < len,
        at.num < at.den,
{
    assert(0 <= i * from_rate <= 0xffff_ffff_ffff_ffff * 0xffff_ffff) by (nonlinear_arith)
        requires
            0 <= i <= 0xffff_ffff_ffff_ffff,
            0 <= from_rate <= 0xffff_ffff,
    ;
    let position: u128 = i as u128 * from_rate as u128;
    let whole: u128 = position / to_rate as u128;
    let part: u128 = position % to_rate as u128;
    let lo = whole as usize;
    let hi = if lo + 1 < len {
        lo + 1
    } else {
        len - 1
    };
    Tap { lo, hi, num: part as u32, den: to_rate }
}

/// What it means for `output` to be `input` brought from `from_rate` to
/// `to_rate` with `mix` as the blend of two neighbours: the length is
/// `floor(len * to_rate / from_rate)`; at equal rates the samples are those
/// of the input; otherwise each output sample is what `mix` made of the two
/// input samples around its source position and the fraction between them.
pub open spec fn resamples<T, F: Fn(T, T, u32, u32) -> T>(
    input: Seq<T>,
    from_rate: u32,
    to_rate: u32,
    mix: F,
    output: Seq<T>,
) -> bool {
    &&& output.len() == resampled_len(input.len(), from_rate, to_rate)
    &&& from_rate == to_rate ==> output == input
    &&& from_rate != to_rate ==> forall|i: int|
        0 <= i < output.len() ==> call_ensures(
            mix,
            (
                input[source_index(i, from_rate, to_rate)],
                input[upper_index(source_index(i, from_rate, to_rate), input.len() as int)],
                source_fraction(i, from_rate, to_rate) as u32,
                to_rate,
            ),
            #[trigger] output[i],
        )
}

/// Brings `input` from `from_rate` to `to_rate` samples per second.
///
/// At equal rates the result is a copy of the input and `mix` is not called.
/// Otherwise output sample `i` is `mix(input[lo], input[hi], num, to_rate)`,
/// where `lo` is the whole part of `i * from_rate / to_rate`, `hi` is
/// `lo + 1` kept inside the input, and `num / to_rate` is the fractional
/// part: the weight of `input[hi]`.
pub fn resample<T: Copy, F: Fn(T, T, u32, u32) -> T>(
    input: &[T],
    from_rate: u32,
    to_rate: u32,
    mix: F,
) -> (output: Vec<T>)
    requires
        convertible(input@.len(), from_rate, to_rate),
        resampled_len(input@.len(), from_rate, to_rate) <= usize::MAX,
        forall|a: T, b: T, num: u32| num < to_rate ==> call_requires(mix, (a, b, num, to_rate)),
    ensures
        resamples(input@, from_rate, to_rate, mix, output@),
{
    if from_rate == to_rate {
        return slice_to_vec(input);
    }
    let len = input.len();
    let count = match output_len(len, from_rate, to_rate) {
        Some(count) => count,
        None => 0,
    };
    let mut output: Vec<T> = Vec::with_capacity(count);
    let mut i: usize = 0;
    while i < count
        invariant
            i <= count,
            len == input@.len(),
            from_rate != to_rate,
            count == resampled_len(len as nat, from_rate, to_rate),
            count > 0 ==> from_rate > 0,
            output@.len() == i,
            forall|a: T, b: T, num: u32| num < to_rate ==> call_requires(mix, (a, b, num, to_rate)),
            forall|j: int|
                0 <= j < i ==> call_ensures(
                    mix,
                    (
                        input@[source_index(j, from_rate, to_rate)],
                        input@[upper_index(source_index(j, from_rate, to_rate), len as int)],
                        source_fraction(j, from_rate, to_rate) as u32,
                        to_rate,
                    ),
                    #[trigger] output@[j],
                ),
        decreases count - i,
    {
        proof {
            lemma_source_in_range(i as int, len as nat, from_rate, to_rate);
        }
        let at = tap(i, len, from_rate, to_rate);
        let sample = mix(input[at.lo], input[at.hi], at.num, at.den);
        output.push(sample);
        i += 1;
    }
    output
}

/// The linear blend of `a` and `b` with weight `num / den` on `b`, rounded
/// down: `floor((a * (den - num) + b * num) / den)`.
pub open spec fn blend(a: int, b: int, num: int, den: int) -> int {
    (a * (den - num) + b * num) / den
}

/// A blend lies between the two values it blends.
pub proof fn lemma_blend_between(a: int, b: int, num: int, den: int)
    requires
        0 <= num < den,
    ensures
        a <= b ==> a <= blend(a, b, num, den) <= b,
        b <= a ==> b <= blend(a, b, num, den) <= a,
{
    let total = a * (den - num) + b * num;
    assert(a * (den - num) + a * num == a * den) by (nonlinear_arith);
    assert(b * (den - num) + b * num == b * den) by (nonlinear_arith);
    if a <= b {
        assert(a * num <= b * num) by (nonlinear_arith)
            requires
                a <= b,
                0 <= num,
        ;
        assert(a * (den - num) <= b * (den - num)) by (nonlinear_arith)
            requires
                a <= b,
                0 <= den - num,
        ;
        assert(a <= total / den <= b) by (nonlinear_arith)
            requires
                a * den <= total <= b * den,
                den > 0,
        ;
    }
    if b <= a {
        assert(b * num <= a * num) by (nonlinear_arith)
            requires
                b <= a,
                0 <= num,
        ;
        assert(b * (den - num) <= a * (den - num)) by (nonlinear_arith)
            requires
                b <= a,
                0 <= den - num,
        ;
        assert(b <= total / den <= a) by (nonlinear_arith)
            requires
                b * den <= total <= a * den,
                den > 0,
        ;
    }
}

/// Blending a value with itself gives that value, whatever the weight.
pub proof fn lemma_blend_of_equals(value: int, num: int, den: int)
    requires
        0 <= num < den,
    ensures
        blend(value, value, num, den) == value,
{
    lemma_blend_between(value, value, num, den);
}

/// The blend of two 16-bit PCM samples with weight `num / den` on `b`.
pub fn blend_pcm(a: i16, b: i16, num: u32, den: u32) -> (mixed: i16)
    requires
        num < den,
    ensures
        mixed == blend(a as int, b as int, num as int, den as int),
{
    let low: u64 = (a as i64 + 32768) as u64;
    let high: u64 = (b as i64 + 32768) as u64;
    let rest: u64 = (den - num) as u64;
    let weight: u64 = num as u64;
    assert(low * rest <= 0xffff * 0xffff_ffff) by (nonlinear_arith)
        requires
            0 <= low <= 0xffff,
            0 <= rest <= 0xffff_ffff,
    ;
    assert(high * weight <= 0xffff * 0xffff_ffff) by (nonlinear_arith)
        requires
            0 <= high <= 0xffff,
            0 <= weight <= 0xffff_ffff,
    ;
    let total: u64 = low * rest + high * weight;
    let lifted: u64 = total / (den as u64);
    proof {
        let d = den as int;
        let n = num as int;
        let signed = (a as int) * (d - n) + (b as int) * n;
        assert(total == signed + 32768 * d) by (nonlinear_arith)
            requires
                total == (a + 32768) * (d - n) + (b + 32768) * n,
                signed == a * (d - n) + b * n,
        ;
        assert((signed + 32768 * d) / d == signed / d + 32768) by (nonlinear_arith)
            requires
                d > 0,
        ;
        lemma_blend_between(a as int, b as int, n, d);
    }
    (lifted as i64 - 32768) as i16
}

/// 16-bit PCM brought from `from_rate` to `to_rate` by linear interpolation.
pub open spec fn resampled_pcm(input: Seq<i16>, from_rate: u32, to_rate: u32) -> Seq<i16> {
    if from_rate == to_rate {
        input
    } else {
        Seq::new(
            resampled_len(input.len(), from_rate, to_rate),
            |i: int|
                blend(
                    input[source_index(i, from_rate, to_rate)] as int,
                    input[upper_index(source_index(i, from_rate, to_rate), input.len() as int)] as int,
                    source_fraction(i, from_rate, to_rate),
                    to_rate as int,
                ) as i16,
        )
    }
}

/// Brings 16-bit PCM from `from_rate` to `to_rate` samples per second by
/// linear interpolation, each sample rounded down.
pub fn resample_pcm(input: &[i16], from_rate: u32, to_rate: u32) -> (output: Vec<i16>)
    requires
        convertible(input@.len(), from_rate, to_rate),
        resampled_len(input@.len(), from_rate, to_rate) <= usize::MAX,
    ensures
        output@ == resampled_pcm(input@, from_rate, to_rate),
{
    let mix = |a: i16, b: i16, num: u32, den: u32| -> (mixed: i16)
        requires
            num < den,
        ensures
            mixed == blend(a as int, b as int, num as int, den as int),
        { blend_pcm(a, b, num, den) };
    let output = resample(input, from_rate, to_rate, mix);
    proof {
        if from_rate != to_rate {
            assert forall|i: int| 0 <= i < output@.len() implies output@[i] == resampled_pcm(
                input@,
                from_rate,
                to_rate,
            )[i] by {
                if from_rate > 0 {
                    lemma_source_in_range(i, input@.len(), from_rate, to_rate);
                }
            }
            assert(output@ =~= resampled_pcm(input@, from_rate, to_rate));
        }
    }
    output
}

/// At equal rates conversion changes nothing, whatever the blend.
pub proof fn lemma_same_rate_is_identity<T, F: Fn(T, T, u32, u32) -> T>(
    input: Seq<T>,
    rate: u32,
    mix: F,
    output: Seq<T>,
)
    requires
        resamples(input, rate, rate, mix, output),
    ensures
        output == input,
        resampled_len(input.len(), rate, rate) == input.len(),
{
}

/// Between different rates the output has `floor(len * to_rate / from_rate)`
/// samples: none for an empty input, and never more than the input when the
/// rate goes down.
pub proof fn lemma_resampled_len(len: nat, from_rate: u32, to_rate: u32)
    requires
        from_rate > 0,
        from_rate != to_rate,
    ensures
        resampled_len(len, from_rate, to_rate) == len * to_rate / (from_rate as int),
        len == 0 ==> resampled_len(len, from_rate, to_rate) == 0,
        to_rate < from_rate ==> resampled_len(len, from_rate, to_rate) <= len,
{
    let f = from_rate as int;
    let t = to_rate as int;
    assert(0 <= len * t) by (nonlinear_arith)
        requires
            0 <= len,
            0 <= t,
    ;
    assert(0 <= (len * t) / f) by (nonlinear_arith)
        requires
            0 <= len * t,
            f > 0,
    ;
    if len == 0 {
        assert(len * t == 0) by (nonlinear_arith)
            requires
                len == 0,
        ;
    }
    if t < f {
        assert(len * t <= len * f) by (nonlinear_arith)
            requires
                t < f,
                0 <= len,
        ;
        assert((len * t) / f <= len) by (nonlinear_arith)
            requires
                len * t <= len * f,
                f > 0,
        ;
    }
}

/// Resampling a constant sequence gives a constant sequence of the same
/// value, for every blend that returns a value when both neighbours hold it.
/// An input of one sample is such a sequence.
pub proof fn lemma_constant_stays_constant<T, F: Fn(T, T, u32, u32) -> T>(
    input: Seq<T>,
    from_rate: u32,
    to_rate: u32,
    mix: F,
    output: Seq<T>,
    value: T,
)
    requires
        convertible(input.len(), from_rate, to_rate),
        resamples(input, from_rate, to_rate, mix, output),
        forall|k: int| 0 <= k < input.len() ==> input[k] == value,
        forall|num: u32, mixed: T|
            num < to_rate && call_ensures(mix, (value, value, num, to_rate), mixed) ==> mixed
                == value,
    ensures
        forall|i: int| 0 <= i < output.len() ==> output[i] == value,
{
    if from_rate != to_rate {
        assert forall|i: int| 0 <= i < output.len() implies output[i] == value by {
            lemma_source_in_range(i, input.len(), from_rate, to_rate);
            let lo = source_index(i, from_rate, to_rate);
            let hi = upper_index(lo, input.len() as int);
            let num = source_fraction(i, from_rate, to_rate) as u32;
            assert(input[lo] == value);
            assert(input[hi] == value);
            assert(call_ensures(mix, (input[lo], input[hi], num, to_rate), output[i]));
        }
    }
}

/// Resampling constant 16-bit PCM gives constant PCM of the same value.
pub proof fn lemma_constant_pcm(input: Seq<i16>, from_rate: u32, to_rate: u32, value: i16)
    requires
        convertible(input.len(), from_rate, to_rate),
        forall|k: int| 0 <= k < input.len() ==> input[k] == value,
    ensures
        resampled_pcm(input, from_rate, to_rate).len() == resampled_len(
            input.len(),
            from_rate,
            to_rate,
        ),
        forall|i: int|
            0 <= i < resampled_pcm(input, from_rate, to_rate).len() ==> resampled_pcm(
                input,
                from_rate,
                to_rate,
            )[i] == value,
{
    if from_rate != to_rate {
        let output = resampled_pcm(input, from_rate, to_rate);
        assert forall|i: int| 0 <= i < output.len() implies output[i] == value by {
            lemma_source_in_range(i, input.len(), from_rate, to_rate);
            lemma_blend_of_equals(
                value as int,
                source_fraction(i, from_rate, to_rate),
                to_rate as int,
            );
        }
    }
}

} // verus!
