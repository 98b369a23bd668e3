use vstd::prelude::*;

verus! {

/// ASCII `-`.
pub const B_MINUS: u8 = 45;

/// ASCII `.`.
pub const B_DOT: u8 = 46;

/// ASCII `0`.
pub const B_ZERO: u8 = 48;

/// ASCII `$`.
pub const B_DOLLAR: u8 = 36;

/// ASCII `*`.
pub const B_STAR: u8 = 42;

/// ASCII `,`.
pub const B_COMMA: u8 = 44;

/// ASCII carriage return.
pub const B_CR: u8 = 13;

/// ASCII line feed.
pub const B_LF: u8 = 10;

/// ASCII `1`.
pub const B_ONE: u8 = 49;

/// ASCII `2`.
pub const B_TWO: u8 = 50;

/// ASCII `3`.
pub const B_THREE: u8 = 51;

/// ASCII `A`.
pub const B_UPPER_A: u8 = 65;

/// ASCII `C`.
pub const B_UPPER_C: u8 = 67;

/// ASCII `F`.
pub const B_UPPER_F: u8 = 70;

/// ASCII `G`.
pub const B_UPPER_G: u8 = 71;

/// ASCII `M`.
pub const B_UPPER_M: u8 = 77;

/// ASCII `P`.
pub const B_UPPER_P: u8 = 80;

/// ASCII `R`.
pub const B_UPPER_R: u8 = 82;

/// ASCII `S`.
pub const B_UPPER_S: u8 = 83;

/// ASCII `X`.
pub const B_UPPER_X: u8 = 88;

/// Absolute value of a mathematical integer.
pub open spec fn iabs(a: int) -> int {
    if a < 0 {
        -a
    } else {
        a
    }
}

/// Round `n / d` to the nearest integer, halves away from zero,
/// for nonnegative `n` and positive `d`.
pub open spec fn spec_round_div(n: int, d: int) -> int {
    (n + d / 2) / d
}

/// `10^k`.
pub open spec fn pow10(k: nat) -> int
    decreases k,
{
    if k == 0 {
        1
    } else {
        10 * pow10((k - 1) as nat)
    }
}

pub proof fn lemma_pow10_pos(k: nat)
    ensures
        pow10(k) >= 1,
    decreases k,
{
    if k > 0 {
        lemma_pow10_pos((k - 1) as nat);
    }
}

/// ASCII byte of a decimal digit.
pub open spec fn digit_byte(d: int) -> u8 {
    (48 + d) as u8
}

/// ASCII byte of a hexadecimal digit, uppercase.
pub open spec fn hex_digit_byte(d: int) -> u8 {
    if d < 10 {
        (48 + d) as u8
    } else {
        (55 + d) as u8
    }
}

/// Decimal digits of `n`, most significant first, no leading zeros
/// (a single `0` for zero).
pub open spec fn spec_udec(n: nat) -> Seq<u8>
    decreases n,
{
    if n < 10 {
        seq![digit_byte(n as int)]
    } else {
        spec_udec(n / 10).push(digit_byte((n % 10) as int))
    }
}

/// `k` ASCII zeros.
pub open spec fn spec_zeros(k: nat) -> Seq<u8> {
    Seq::new(k, |i: int| B_ZERO)
}

/// Decimal digits of `n`, left-padded with zeros to at least `w` digits.
pub open spec fn spec_udec_pad(n: nat, w: nat) -> Seq<u8> {
    if spec_udec(n).len() >= w {
        spec_udec(n)
    } else {
        spec_zeros((w - spec_udec(n).len()) as nat) + spec_udec(n)
    }
}

/// Uppercase hexadecimal digits of `n`, no leading zeros.
pub open spec fn spec_uhex(n: nat) -> Seq<u8>
    decreases n,
{
    if n < 16 {
        seq![hex_digit_byte(n as int)]
    } else {
        spec_uhex(n / 16).push(hex_digit_byte((n % 16) as int))
    }
}

/// Decimal rendering of a magnitude counted in `10^-k` units, with exactly
/// `k` fractional digits, and a minus sign when the value before rounding
/// was negative — also when the magnitude itself rounded to zero.
pub open spec fn spec_signed_fixed(neg: bool, mag: int, k: nat) -> Seq<u8> {
    let sign = if neg {
        seq![B_MINUS]
    } else {
        Seq::<u8>::empty()
    };
    sign + spec_udec((mag / pow10(k)) as nat) + seq![B_DOT] + spec_udec_pad(
        (mag % pow10(k)) as nat,
        k,
    )
}

/// Fractional digits of `r` in `10^-k` units with trailing zeros removed;
/// empty when the fraction is zero.
pub open spec fn spec_frac_trim(r: nat, k: nat) -> Seq<u8>
    decreases k,
{
    if r == 0 || k == 0 {
        Seq::empty()
    } else if r % 10 == 0 {
        spec_frac_trim(r / 10, (k - 1) as nat)
    } else {
        spec_udec_pad(r, k)
    }
}

/// Decimal rendering of a value counted in `10^-k` units in the shortest
/// form: no trailing fractional zeros, and no decimal point at all when the
/// fraction is zero.
pub open spec fn spec_trimmed(v: int, k: nat) -> Seq<u8> {
    let sign = if v < 0 {
        seq![B_MINUS]
    } else {
        Seq::<u8>::empty()
    };
    let fr = spec_frac_trim((iabs(v) % pow10(k)) as nat, k);
    let tail = if fr.len() == 0 {
        Seq::<u8>::empty()
    } else {
        seq![B_DOT] + fr
    };
    sign + spec_udec((iabs(v) / pow10(k)) as nat) + tail
}

pub proof fn lemma_udec_len_le(n: nat, k: nat)
    requires
        k >= 1,
        n < pow10(k),
    ensures
        spec_udec(n).len() <= k,
    decreases k,
{
    if n >= 10 {
        assert(pow10(1) == 10) by {
            reveal_with_fuel(pow10, 2);
        }
        assert(k >= 2);
        lemma_udec_len_le(n / 10, (k - 1) as nat);
    }
}

pub proof fn lemma_u64_lt_pow10_20(n: u64)
    ensures
        n < pow10(20),
{
    assert(pow10(20) == 100000000000000000000) by {
        reveal_with_fuel(pow10, 21);
    }
}

/// Every byte of `spec_udec(n)` is an ASCII decimal digit.
pub proof fn lemma_udec_digits(n: nat)
    ensures
        forall|i: int| 0 <= i < spec_udec(n).len() ==> 48 <= #[trigger] spec_udec(n)[i] <= 57,
    decreases n,
{
    if n < 10 {
        assert(spec_udec(n)[0] == digit_byte(n as int));
    } else {
        lemma_udec_digits(n / 10);
        assert forall|i: int| 0 <= i < spec_udec(n).len() implies 48 <= #[trigger] spec_udec(n)[i] <= 57 by {
            if i < spec_udec(n / 10).len() {
                assert(spec_udec(n)[i] == spec_udec(n / 10)[i]);
            } else {
                assert(spec_udec(n)[i] == digit_byte((n % 10) as int));
            }
        }
    }
}

/// Every byte of `spec_udec_pad(n, w)` is an ASCII decimal digit.
pub proof fn lemma_udec_pad_digits(n: nat, w: nat)
    ensures
        forall|i: int|
            0 <= i < spec_udec_pad(n, w).len() ==> 48 <= #[trigger] spec_udec_pad(n, w)[i] <= 57,
{
    lemma_udec_digits(n);
}

/// Every byte of `spec_uhex(n)` is an ASCII decimal digit or `A`..`F`.
pub proof fn lemma_uhex_digits(n: nat)
    ensures
        forall|i: int|
            0 <= i < spec_uhex(n).len() ==> (48 <= #[trigger] spec_uhex(n)[i] <= 57 || 65
                <= spec_uhex(n)[i] <= 70),
    decreases n,
{
    if n < 16 {
        assert(spec_uhex(n)[0] == hex_digit_byte(n as int));
    } else {
        lemma_uhex_digits(n / 16);
        assert forall|i: int|
            0 <= i < spec_uhex(n).len() implies (48 <= #[trigger] spec_uhex(n)[i] <= 57 || 65
            <= spec_uhex(n)[i] <= 70) by {
            if i < spec_uhex(n / 16).len() {
                assert(spec_uhex(n)[i] == spec_uhex(n / 16)[i]);
            } else {
                assert(spec_uhex(n)[i] == hex_digit_byte((n % 16) as int));
            }
        }
    }
}

/// Every byte of `spec_signed_fixed` is a digit, a minus sign, or a dot.
pub proof fn lemma_signed_fixed_bytes(neg: bool, mag: int, k: nat)
    ensures
        forall|i: int|
            0 <= i < spec_signed_fixed(neg, mag, k).len() ==> (48 <= #[trigger] spec_signed_fixed(
                neg,
                mag,
                k,
            )[i] <= 57 || spec_signed_fixed(neg, mag, k)[i] == B_MINUS || spec_signed_fixed(
                neg,
                mag,
                k,
            )[i] == B_DOT),
{
    lemma_pow10_pos(k);
    lemma_udec_digits((mag / pow10(k)) as nat);
    lemma_udec_pad_digits((mag % pow10(k)) as nat, k);
}

/// Number of decimal digits of `n`.
pub fn udec_len(n: u64) -> (r: usize)
    ensures
        r == spec_udec(n as nat).len(),
{
    proof {
        lemma_u64_lt_pow10_20(n);
        lemma_udec_len_le(n as nat, 20);
    }
    let mut m: u64 = n;
    let mut c: usize = 1;
    while m >= 10
        invariant
            c >= 1,
            c + spec_udec(m as nat).len() == 1 + spec_udec(n as nat).len(),
            spec_udec(n as nat).len() <= 20,
        decreases m,
    {
        m = m / 10;
        c = c + 1;
    }
    c
}

/// Append the decimal digits of `n`, no leading zeros.
pub fn push_udec(v: &mut Vec<u8>, n: u64)
    ensures
        final (v)@ == old(v)@ + spec_udec(n as nat),
    decreases n,
{
    if n < 10 {
        v.push(48 + n as u8);
        assert(v@ =~= old(v)@ + spec_udec(n as nat));
    } else {
        push_udec(v, n / 10);
        v.push(48 + (n % 10) as u8);
        assert(v@ =~= old(v)@ + spec_udec(n as nat));
    }
}

/// Append the decimal digits of `n`, left-padded with zeros to width `w`.
pub fn push_udec_pad(v: &mut Vec<u8>, n: u64, w: usize)
    ensures
        final (v)@ == old(v)@ + spec_udec_pad(n as nat, w as nat),
{
    let len = udec_len(n);
    let ghost base = v@;
    let mut i: usize = len;
    proof {
        assert(v@ =~= base + spec_zeros(0));
    }
    while i < w
        invariant
            len <= i,
            i <= w || i == len,
            len == spec_udec(n as nat).len(),
            v@ == base + spec_zeros((i - len) as nat),
        decreases w - i,
    {
        v.push(B_ZERO);
        assert(v@ =~= base + spec_zeros((i + 1 - len) as nat));
        i = i + 1;
    }
    push_udec(v, n);
    if len >= w {
        assert(v@ =~= base + spec_udec_pad(n as nat, w as nat));
    } else {
        assert(v@ =~= base + spec_udec_pad(n as nat, w as nat));
    }
}

/// Append the uppercase hexadecimal digits of `n`, no leading zeros.
pub fn push_uhex(v: &mut Vec<u8>, n: u64)
    ensures
        final (v)@ == old(v)@ + spec_uhex(n as nat),
    decreases n,
{
    if n < 16 {
        let d = n as u8;
        v.push(if d < 10 { 48 + d } else { 55 + d });
        assert(v@ =~= old(v)@ + spec_uhex(n as nat));
    } else {
        push_uhex(v, n / 16);
        let d = (n % 16) as u8;
        v.push(if d < 10 { 48 + d } else { 55 + d });
        assert(v@ =~= old(v)@ + spec_uhex(n as nat));
    }
}

/// Append the decimal rendering of the magnitude `mag` counted in `10^-k`
/// units, with exactly `k` fractional digits, and a minus sign when `neg`
/// (`pow` must be `10^k`).
pub fn push_signed_fixed(v: &mut Vec<u8>, neg: bool, mag: u64, pow: u64, k: usize)
    requires
        pow == pow10(k as nat),
    ensures
        final (v)@ == old(v)@ + spec_signed_fixed(neg, mag as int, k as nat),
{
    proof {
        lemma_pow10_pos(k as nat);
    }
    if neg {
        v.push(B_MINUS);
    }
    push_udec(v, mag / pow);
    v.push(B_DOT);
    push_udec_pad(v, mag % pow, k);
    assert(v@ =~= old(v)@ + spec_signed_fixed(neg, mag as int, k as nat));
}

/// Round `n / d` to the nearest integer, halves away from zero.
pub fn round_div_u64(n: u64, d: u64) -> (r: u64)
    requires
        1 <= d,
        n + d / 2 <= u64::MAX,
    ensures
        r == spec_round_div(n as int, d as int),
{
    (n + d / 2) / d
}

/// Append the shortest decimal rendering of `val` counted in `10^-k` units:
/// trailing fractional zeros removed, no decimal point for whole values
/// (`pow` must be `10^k`).
pub fn push_trimmed(v: &mut Vec<u8>, val: i64, pow: u64, k: usize)
    requires
        pow == pow10(k as nat),
        val > i64::MIN,
    ensures
        final (v)@ == old(v)@ + spec_trimmed(val as int, k as nat),
{
    proof {
        lemma_pow10_pos(k as nat);
    }
    if val < 0 {
        v.push(B_MINUS);
    }
    let a: u64 = if val < 0 {
        (-val) as u64
    } else {
        val as u64
    };
    push_udec(v, a / pow);
    let mut r: u64 = a % pow;
    let mut kk: usize = k;
    while r > 0 && r % 10 == 0
        invariant
            kk <= k,
            r < pow10(kk as nat),
            spec_frac_trim(r as nat, kk as nat) == spec_frac_trim((a % pow) as nat, k as nat),
        decreases r,
    {
        proof {
            lemma_pow10_pos((kk - 1) as nat);
        }
        r = r / 10;
        kk = kk - 1;
    }
    if r > 0 {
        v.push(B_DOT);
        push_udec_pad(v, r, kk);
    }
    assert(v@ =~= old(v)@ + spec_trimmed(val as int, k as nat));
}


/// `pow10` at the small exponents the renderers use.
pub proof fn lemma_pow10_small()
    ensures
        pow10(0) == 1,
        pow10(1) == 10,
        pow10(2) == 100,
        pow10(3) == 1000,
        pow10(4) == 10_000,
        pow10(10) == 10_000_000_000,
{
    reveal_with_fuel(pow10, 12);
}

} // verus!
