//! Pure numeric transforms on frequencies and transponder codes.
use vstd::prelude::*;
use vstd::arithmetic::div_mod::{lemma_basic_div, lemma_fundamental_div_mod, lemma_fundamental_div_mod_converse};

verus! {

/// Largest value of a `u32`, as a mathematical integer.
pub open spec fn u32_max() -> int {
    0xFFFF_FFFFint
}

/// `5` raised to the power `p`.
pub open spec fn pow5(p: nat) -> nat
    decreases p,
{
    if p == 0 {
        1
    } else {
        5 * pow5((p - 1) as nat)
    }
}

/// Nearest multiple of `5^p` to `v`, ties rounded up: `(v + m/2) / m * m`.
/// The sum `v + m/2` saturates at `u32::MAX` instead of wrapping, so the
/// result is always a multiple of `m` that fits in a `u32`.
pub open spec fn rounded(v: u32, p: u32) -> int {
    let m = pow5(p as nat) as int;
    let s = if v + m / 2 > u32_max() { u32_max() } else { v + m / 2 };
    (s / m) * m
}

proof fn lemma_pow5_positive(p: nat)
    ensures
        pow5(p) >= 1,
    decreases p,
{
    if p > 0 {
        lemma_pow5_positive((p - 1) as nat);
    }
}

proof fn lemma_pow5_monotone(i: nat, j: nat)
    requires
        i <= j,
    ensures
        pow5(i) <= pow5(j),
    decreases j - i,
{
    if i < j {
        lemma_pow5_monotone(i, (j - 1) as nat);
        lemma_pow5_positive((j - 1) as nat);
    }
}

/// For `m > 0`, `x / m * m` is at most `x` and above `x - m`.
proof fn lemma_floor_multiple(x: int, m: int)
    requires
        x >= 0,
        m > 0,
    ensures
        0 <= (x / m) * m <= x,
        x < (x / m) * m + m,
        x / m >= 0,
{
    lemma_fundamental_div_mod(x, m);
    assert(x / m >= 0) by (nonlinear_arith)
        requires
            x >= 0,
            m > 0,
            x == m * (x / m) + (x % m),
            0 <= x % m < m,
    ;
    assert((x / m) * m == m * (x / m)) by (nonlinear_arith);
    assert(0 <= (x / m) * m) by (nonlinear_arith)
        requires
            x / m >= 0,
            m > 0,
    ;
}

/// The rounded value is a multiple of `5^p` in `0..=u32::MAX`, and nearest to `v`
/// whenever the sum did not saturate.
pub proof fn lemma_rounded_bounds(v: u32, p: u32)
    ensures
        0 <= rounded(v, p) <= u32_max(),
        rounded(v, p) % (pow5(p as nat) as int) == 0,
        v + pow5(p as nat) / 2 <= u32_max() ==> v - pow5(p as nat) / 2 <= rounded(v, p),
        rounded(v, p) <= v + pow5(p as nat) / 2,
{
    let m = pow5(p as nat) as int;
    lemma_pow5_positive(p as nat);
    let s = if v + m / 2 > u32_max() { u32_max() } else { v + m / 2 };
    lemma_floor_multiple(s, m);
    lemma_fundamental_div_mod_converse((s / m) * m, m, s / m, 0);
}

/// Rounding a value that is already rounded leaves it as it is.
pub proof fn lemma_round_idempotent(v: u32, p: u32)
    ensures
        rounded(rounded(v, p) as u32, p) == rounded(v, p),
{
    let m = pow5(p as nat) as int;
    lemma_pow5_positive(p as nat);
    lemma_rounded_bounds(v, p);
    let s = if v + m / 2 > u32_max() { u32_max() } else { v + m / 2 };
    lemma_floor_multiple(s, m);
    let q = s / m;
    let r = rounded(v, p);
    assert(r == q * m);
    let s2 = if r + m / 2 > u32_max() { u32_max() } else { r + m / 2 };
    // `r <= s2 < r + m`, hence `s2 / m == q`.
    assert(q * m <= s2 < q * m + m);
    lemma_fundamental_div_mod_converse(s2, m, q, s2 - q * m);
}

/// Rounds `n` to the nearest multiple of `5^power`, ties up, saturating
/// instead of overflowing near `u32::MAX`.
pub fn round_to_nearest_power_of_5(n: u32, power: u32) -> (r: u32)
    ensures
        r == rounded(n, power),
{
    let mut m: u64 = 1;
    let mut i: u32 = 0;
    while i < power && m <= 0xFFFF_FFFF
        invariant
            i <= power,
            m == pow5(i as nat),
            m <= 5 * 0xFFFF_FFFFu64,
        decreases power - i,
    {
        m = m * 5;
        i = i + 1;
    }
    proof {
        lemma_pow5_positive(power as nat);
        lemma_pow5_monotone(i as nat, power as nat);
    }
    if m > 0xFFFF_FFFF {
        // `5^power` exceeds every `u32`: the saturated sum rounds down to zero.
        proof {
            let mm = pow5(power as nat) as int;
            let s = if n + mm / 2 > u32_max() { u32_max() } else { n + mm / 2 };
            lemma_basic_div(s, mm);
            assert(rounded(n, power) == (s / mm) * mm);
            assert(s / mm == 0);
            assert((s / mm) * mm == 0) by (nonlinear_arith)
                requires
                    s / mm == 0,
            ;
        }
        return 0;
    }
    assert(i == power);
    let half: u64 = m / 2;
    let s: u64 = if n as u64 + half > 0xFFFF_FFFF {
        0xFFFF_FFFF
    } else {
        n as u64 + half
    };
    proof {
        lemma_floor_multiple(s as int, m as int);
    }
    let q: u64 = s / m;
    let r: u64 = q * m;
    r as u32
}

/// The four bytes of `v`, most significant first.
pub open spec fn be_bytes(v: u32) -> Seq<u8> {
    seq![
        (v / 0x100_0000) as u8,
        ((v / 0x1_0000) % 0x100) as u8,
        ((v / 0x100) % 0x100) as u8,
        (v % 0x100) as u8,
    ]
}

/// The number that four bytes spell, most significant first.
pub open spec fn be_value(b: Seq<u8>) -> int {
    b[0] * 0x100_0000int + b[1] * 0x1_0000int + b[2] * 0x100int + b[3]
}

/// Writes `v` as four big-endian bytes.
pub fn pack_u32_be(v: u32) -> (r: [u8; 4])
    ensures
        r@ == be_bytes(v),
{
    let r = [
        (v / 0x100_0000) as u8,
        ((v / 0x1_0000) % 0x100) as u8,
        ((v / 0x100) % 0x100) as u8,
        (v % 0x100) as u8,
    ];
    assert(r@ =~= be_bytes(v));
    r
}

/// Reads four big-endian bytes as a `u32`.
pub fn unpack_u32_be(bytes: &[u8; 4]) -> (r: u32)
    ensures
        r == be_value(bytes@),
{
    (bytes[0] as u32) * 0x100_0000 + (bytes[1] as u32) * 0x1_0000 + (bytes[2] as u32) * 0x100
        + bytes[3] as u32
}

/// Unpacking what was packed gives the value back.
pub proof fn lemma_pack_unpack(v: u32)
    ensures
        be_value(be_bytes(v)) == v,
{
    assert(((v / 0x100_0000) as u8) as int * 0x100_0000int + (((v / 0x1_0000) % 0x100) as u8) as int
        * 0x1_0000int + (((v / 0x100) % 0x100) as u8) as int * 0x100int + ((v % 0x100) as u8) as int
        == v as int) by (bit_vector);
}

/// Packing what was unpacked gives the bytes back.
pub proof fn lemma_unpack_pack(b: Seq<u8>)
    requires
        b.len() == 4,
    ensures
        0 <= be_value(b) <= u32_max(),
        be_bytes(be_value(b) as u32) == b,
{
    let (b0, b1, b2, b3) = (b[0], b[1], b[2], b[3]);
    assert({
        let v = (b0 as u32) * 0x100_0000u32 + (b1 as u32) * 0x1_0000u32 + (b2 as u32) * 0x100u32
            + b3 as u32;
        &&& (v / 0x100_0000) as u8 == b0
        &&& ((v / 0x1_0000) % 0x100) as u8 == b1
        &&& ((v / 0x100) % 0x100) as u8 == b2
        &&& (v % 0x100) as u8 == b3
        &&& v as int == b0 as int * 0x100_0000int + b1 as int * 0x1_0000int + b2 as int * 0x100int
            + b3 as int
    }) by (bit_vector);
    assert(be_bytes(be_value(b) as u32) =~= b);
}

/// `16` raised to the power `k`.
pub open spec fn pow16(k: nat) -> nat
    decreases k,
{
    if k == 0 {
        1
    } else {
        16 * pow16((k - 1) as nat)
    }
}

/// Binary-coded decimal of `v` in `n` nibbles: decimal digit `k` of `v`
/// (counted from the least significant) occupies bits `4k..4k+4`. Digits
/// beyond the `n` lowest are dropped.
pub open spec fn bcd_of(v: nat, n: nat) -> nat
    decreases n,
{
    if n == 0 || v == 0 {
        0
    } else {
        v % 10 + 16 * bcd_of(v / 10, (n - 1) as nat)
    }
}

proof fn lemma_pow16_monotone(i: nat, j: nat)
    requires
        i <= j,
    ensures
        1 <= pow16(i) <= pow16(j),
    decreases j,
{
    if j > 0 {
        if i < j {
            lemma_pow16_monotone(i, (j - 1) as nat);
        } else {
            lemma_pow16_monotone((i - 1) as nat, (j - 1) as nat);
        }
    }
}

/// A BCD value in `n` nibbles is below `16^n`.
pub proof fn lemma_bcd_bound(v: nat, n: nat)
    ensures
        bcd_of(v, n) < pow16(n),
    decreases n,
{
    if n > 0 {
        lemma_bcd_bound(v / 10, (n - 1) as nat);
    }
}

/// Packs the decimal digits of `value` into `nibbles` nibbles.
fn bcd_pack(value: u64, nibbles: u32) -> (r: u128)
    requires
        nibbles <= 16,
    ensures
        r == bcd_of(value as nat, nibbles as nat),
{
    proof {
        reveal_with_fuel(pow16, 17);
        lemma_pow16_monotone(nibbles as nat, 16);
    }
    let mut bcd: u128 = 0;
    let mut place: u128 = 1;
    let mut num: u64 = value;
    let mut k: u32 = 0;
    while num > 0 && k < nibbles
        invariant
            k <= nibbles <= 16,
            pow16(16) == 0x1_0000_0000_0000_0000nat,
            place == pow16(k as nat),
            bcd < place,
            bcd + place * bcd_of(num as nat, (nibbles - k) as nat) == bcd_of(
                value as nat,
                nibbles as nat,
            ),
        decreases nibbles - k,
    {
        proof {
            lemma_pow16_monotone((k + 1) as nat, 16);
        }
        let digit: u64 = num % 10;
        let ghost rest = bcd_of((num / 10) as nat, (nibbles - k - 1) as nat);
        assert(bcd_of(num as nat, (nibbles - k) as nat) == digit + 16 * rest);
        assert(bcd + place * digit < 16 * place && bcd + place * digit + (16 * place) * rest == bcd
            + place * (digit + 16 * rest)) by (nonlinear_arith)
            requires
                bcd < place,
                digit < 10,
        ;
        bcd = bcd + place * digit as u128;
        place = place * 16;
        num = num / 10;
        k = k + 1;
    }
    assert(bcd_of(num as nat, (nibbles - k) as nat) == 0);
    assert(place * bcd_of(num as nat, (nibbles - k) as nat) == 0) by (nonlinear_arith)
        requires
            bcd_of(num as nat, (nibbles - k) as nat) == 0,
    ;
    bcd
}

/// Binary-coded decimal of `value` in 32 bits: the eight lowest decimal
/// digits survive, higher ones are dropped.
pub fn u32_to_bcd16(value: u32) -> (r: u32)
    ensures
        r == bcd_of(value as nat, 8),
{
    let r = bcd_pack(value as u64, 8);
    proof {
        lemma_bcd_bound(value as nat, 8);
        reveal_with_fuel(pow16, 9);
    }
    r as u32
}

/// Binary-coded decimal of `value` in 64 bits: the sixteen lowest decimal
/// digits survive, higher ones are dropped.
pub fn u64_to_bcd16(value: u64) -> (r: u64)
    ensures
        r == bcd_of(value as nat, 16),
{
    let r = bcd_pack(value, 16);
    proof {
        lemma_bcd_bound(value as nat, 16);
        reveal_with_fuel(pow16, 17);
    }
    r as u64
}

} // verus!
