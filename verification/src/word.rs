//! The word codec: packing two bytes into a register word under a bus-level
//! byte order, and the sign-magnitude convention of bidirectional registers.
//!
//! The byte order is a property of the servo family, not of the host. A
//! bidirectional quantity is sent as a magnitude with one direction bit at a
//! fixed position; it is not two's complement.

use vstd::prelude::*;
use vstd::arithmetic::power2::{pow2, lemma_pow2_pos, lemma_pow2_adds, lemma2_to64};
use vstd::arithmetic::div_mod::lemma_hoist_over_denominator;
use vstd::bits::{lemma_u32_shl_is_mul, lemma_u32_shr_is_div, lemma_u32_pow2_no_overflow};

verus! {

/// Order of the two bytes of a word on the bus.
#[derive(Debug, Clone, Copy, PartialEq, Eq, Structural)]
pub enum Endian {
    /// The first part given to [`make_word`] is the high byte.
    BigEndian,
    /// The first part given to [`make_word`] is the low byte.
    SmallEndian,
}

impl Endian {
    /// The name of the byte order.
    pub open spec fn spec_name(self) -> Seq<char> {
        match self {
            Endian::BigEndian => "BigEndian"@,
            Endian::SmallEndian => "SmallEndian"@,
        }
    }

    /// The name of the byte order.
    pub fn name(self) -> (text: String)
        ensures
            text@ == self.spec_name(),
    {
        match self {
            Endian::BigEndian => "BigEndian".to_owned(),
            Endian::SmallEndian => "SmallEndian".to_owned(),
        }
    }
}

/// Highest position that the direction bit can take in a 32-bit value.
pub const MAX_SIGN_BIT: u32 = 30;

/// Bits 0 to 7 of `w`.
pub open spec fn low_byte(w: int) -> int {
    w % 256
}

/// Bits 8 to 15 of `w`.
pub open spec fn high_byte(w: int) -> int {
    (w / 256) % 256
}

/// The word with low byte `lo % 256` and high byte `hi % 256`.
pub open spec fn word_of(lo: int, hi: int) -> int {
    lo % 256 + 256 * (hi % 256)
}

/// The word made of the parts `a` and `b` under `endian`: `a` is the low
/// byte under `SmallEndian`, the high byte under `BigEndian`.
pub open spec fn spec_make_word(a: int, b: int, endian: Endian) -> int {
    match endian {
        Endian::SmallEndian => word_of(a, b),
        Endian::BigEndian => word_of(b, a),
    }
}

/// The low part of `w` under `endian`: bits 0 to 7 under `SmallEndian`,
/// bits 8 to 15 under `BigEndian`.
pub open spec fn spec_lobyte(w: int, endian: Endian) -> int {
    match endian {
        Endian::SmallEndian => low_byte(w),
        Endian::BigEndian => high_byte(w),
    }
}

/// The high part of `w` under `endian`: bits 8 to 15 under `SmallEndian`,
/// bits 0 to 7 under `BigEndian`.
pub open spec fn spec_hibyte(w: int, endian: Endian) -> int {
    match endian {
        Endian::SmallEndian => high_byte(w),
        Endian::BigEndian => low_byte(w),
    }
}

/// Whether bit `bit` of `value` is set.
pub open spec fn bit_is_set(value: int, bit: nat) -> bool {
    (value / pow2(bit) as int) % 2 == 1
}

/// Host value of a sign-magnitude register value: with the direction bit
/// set, the negated rest; otherwise the value itself.
pub open spec fn spec_to_host(value: int, sign_bit: nat) -> int {
    if bit_is_set(value, sign_bit) {
        -(value - pow2(sign_bit))
    } else {
        value
    }
}

/// Sign-magnitude register value of a host value: a negative value becomes
/// its magnitude with the direction bit set; others stay.
pub open spec fn spec_to_device(value: int, sign_bit: nat) -> int {
    if value >= 0 {
        value
    } else if bit_is_set(-value, sign_bit) {
        -value
    } else {
        -value + pow2(sign_bit)
    }
}

proof fn lemma_bytes_of_i32(w: i32)
    ensures
        (w & 0xFF) as int == low_byte(w as int),
        ((w >> 8u32) & 0xFF) as int == high_byte(w as int),
{
    let u = #[verifier::truncate] (w as u32);
    assert(w & 0xFF == (u & 0xFF) as i32) by (bit_vector)
        requires
            u == w as u32,
    ;
    assert((w >> 8u32) & 0xFF == ((u >> 8u32) & 0xFF) as i32) by (bit_vector)
        requires
            u == w as u32,
    ;
    assert(u & 0xFF == u % 256) by (bit_vector);
    assert((u >> 8u32) & 0xFF == (u / 256) % 256) by (bit_vector);
    assert(w < 0 ==> u as int == w as int + 0x1_0000_0000) by (bit_vector)
        requires
            u == w as u32,
    ;
    assert(w >= 0 ==> u as int == w as int) by (bit_vector)
        requires
            u == w as u32,
    ;
    if w < 0 {
        let x = w as int;
        assert((x + 0x1_0000_0000) % 256 == x % 256) by (nonlinear_arith);
        assert(((x + 0x1_0000_0000) / 256) % 256 == (x / 256) % 256) by (nonlinear_arith);
    }
}

proof fn lemma_word_of_bytes(lo: i32, hi: i32)
    requires
        0 <= lo < 256,
        0 <= hi < 256,
    ensures
        (lo | (hi << 8u32)) as int == lo + 256 * hi,
{
    assert((lo | (hi << 8u32)) == lo + 256 * hi) by (bit_vector)
        requires
            0 <= lo < 256,
            0 <= hi < 256,
    ;
}

/// The mask of a direction bit is the power of two of its position.
pub proof fn lemma_mask_is_pow2(bit: u32)
    requires
        bit <= MAX_SIGN_BIT,
    ensures
        (1i32 << bit) as int == pow2(bit as nat),
        0 < pow2(bit as nat) <= 0x4000_0000,
{
    lemma_u32_pow2_no_overflow(bit as nat);
    lemma_u32_shl_is_mul(1u32, bit);
    assert(1i32 << bit == (1u32 << bit) as i32) by (bit_vector)
        requires
            bit <= 30,
    ;
    assert((1u32 << bit) <= 0x4000_0000u32) by (bit_vector)
        requires
            bit <= 30,
    ;
}

proof fn lemma_bit_test(value: i32, bit: u32)
    requires
        bit <= MAX_SIGN_BIT,
    ensures
        (value & (1i32 << bit) != 0) == bit_is_set(value as int, bit as nat),
        value & (1i32 << bit) != 0 ==> (value & !(1i32 << bit)) as int == value - pow2(bit as nat),
        value & (1i32 << bit) == 0 ==> (value | (1i32 << bit)) as int == value + pow2(bit as nat),
{
    lemma_mask_is_pow2(bit);
    let m = 1i32 << bit;
    let u = #[verifier::truncate] (value as u32);
    let p = pow2(bit as nat) as int;
    assert(value & m != 0 ==> (value & !m) == value - m) by (bit_vector)
        requires
            bit <= 30,
            m == 1i32 << bit,
    ;
    assert(value & m == 0 ==> (value | m) == value + m) by (bit_vector)
        requires
            bit <= 30,
            m == 1i32 << bit,
    ;
    assert((value & m != 0) == ((u >> bit) & 1 == 1)) by (bit_vector)
        requires
            bit <= 30,
            m == 1i32 << bit,
            u == value as u32,
    ;
    let shifted = u >> bit;
    assert(shifted & 1 == shifted % 2) by (bit_vector);
    lemma_u32_shr_is_div(u, bit);
    assert(shifted as int == u as int / p);
    assert(value < 0 ==> u as int == value as int + 0x1_0000_0000) by (bit_vector)
        requires
            u == value as u32,
    ;
    assert(value >= 0 ==> u as int == value as int) by (bit_vector)
        requires
            u == value as u32,
    ;
    if value < 0 {
        let rest = (31 - bit) as nat;
        lemma_pow2_adds(bit as nat, rest);
        lemma_pow2_adds(1, rest);
        lemma_pow2_adds(31, 1);
        lemma2_to64();
        lemma_pow2_pos(rest);
        let k = 2 * pow2(rest) as int;
        assert(k * p == 0x1_0000_0000) by (nonlinear_arith)
            requires
                k == 2 * pow2(rest) as int,
                pow2(31) == p * pow2(rest),
                pow2(31) == 0x8000_0000,
        ;
        lemma_hoist_over_denominator(value as int, k, p as nat);
        assert(u as int / p == value as int / p + k);
    }
}

/// Combines two parts into a word: under `SmallEndian` the first is the low
/// byte, under `BigEndian` the high byte. Only the low eight bits of each
/// part count.
pub fn make_word(a: i32, b: i32, endian: Endian) -> (w: i32)
    ensures
        w as int == spec_make_word(a as int, b as int, endian),
        0 <= w <= 0xFFFF,
{
    proof {
        lemma_bytes_of_i32(a);
        lemma_bytes_of_i32(b);
        lemma_word_of_bytes(a & 0xFF, b & 0xFF);
        lemma_word_of_bytes(b & 0xFF, a & 0xFF);
    }
    match endian {
        Endian::SmallEndian => (a & 0xFF) | ((b & 0xFF) << 8u32),
        Endian::BigEndian => (b & 0xFF) | ((a & 0xFF) << 8u32),
    }
}

/// The byte of `w` that travels first under `endian`'s convention for the
/// low part: bits 0 to 7 under `SmallEndian`, bits 8 to 15 under `BigEndian`.
pub fn lobyte(w: i32, endian: Endian) -> (b: i32)
    ensures
        b as int == spec_lobyte(w as int, endian),
        0 <= b <= 0xFF,
{
    proof {
        lemma_bytes_of_i32(w);
    }
    match endian {
        Endian::SmallEndian => w & 0xFF,
        Endian::BigEndian => (w >> 8u32) & 0xFF,
    }
}

/// The counterpart of [`lobyte`]: bits 8 to 15 under `SmallEndian`, bits 0 to
/// 7 under `BigEndian`.
pub fn hibyte(w: i32, endian: Endian) -> (b: i32)
    ensures
        b as int == spec_hibyte(w as int, endian),
        0 <= b <= 0xFF,
{
    proof {
        lemma_bytes_of_i32(w);
    }
    match endian {
        Endian::SmallEndian => (w >> 8u32) & 0xFF,
        Endian::BigEndian => w & 0xFF,
    }
}

/// Converts a register value with a direction bit at `sign_bit` to a signed
/// host value.
///
/// The one value left out is that whose magnitude part cannot be negated in
/// 32 bits.
pub fn to_host(value: i32, sign_bit: u32) -> (r: i32)
    requires
        sign_bit <= MAX_SIGN_BIT,
        value as int - pow2(sign_bit as nat) != i32::MIN,
    ensures
        r as int == spec_to_host(value as int, sign_bit as nat),
{
    proof {
        lemma_bit_test(value, sign_bit);
    }
    let mask: i32 = 1i32 << sign_bit;
    if value & mask != 0 {
        -(value & !mask)
    } else {
        value
    }
}

/// Converts a signed host value to a register value with a direction bit at
/// `sign_bit`.
pub fn to_device(value: i32, sign_bit: u32) -> (r: i32)
    requires
        sign_bit <= MAX_SIGN_BIT,
        value != i32::MIN,
    ensures
        r as int == spec_to_device(value as int, sign_bit as nat),
{
    let mask: i32 = 1i32 << sign_bit;
    if value < 0 {
        let magnitude: i32 = -value;
        proof {
            lemma_bit_test(magnitude, sign_bit);
            assert(magnitude & mask != 0 ==> magnitude | mask == magnitude) by (bit_vector)
                requires
                    sign_bit <= 30,
                    mask == 1i32 << sign_bit,
            ;
        }
        magnitude | mask
    } else {
        value
    }
}

/// Sign round trip: a host value whose magnitude fits below the direction
/// bit comes back unchanged from the trip to the device form and back.
pub proof fn lemma_sign_round_trip(value: int, sign_bit: nat)
    requires
        -(pow2(sign_bit) - 1) <= value <= pow2(sign_bit) - 1,
    ensures
        spec_to_host(spec_to_device(value, sign_bit), sign_bit) == value,
{
    let p = pow2(sign_bit) as int;
    lemma_pow2_pos(sign_bit);
    if value >= 0 {
        assert(value / p == 0) by (nonlinear_arith)
            requires
                0 <= value < p,
        ;
    } else {
        let m = -value;
        assert(m / p == 0) by (nonlinear_arith)
            requires
                0 <= m < p,
        ;
        assert((m + p) / p == 1) by (nonlinear_arith)
            requires
                0 <= m < p,
        ;
    }
}

/// Endian symmetry: a 16-bit word is rebuilt from its two bytes under either
/// byte order.
pub proof fn lemma_endian_symmetry(w: int, endian: Endian)
    requires
        0 <= w <= 0xFFFF,
    ensures
        spec_make_word(spec_lobyte(w, endian), spec_hibyte(w, endian), endian) == w,
{
    assert((w % 256) % 256 + 256 * (((w / 256) % 256) % 256) == w) by (nonlinear_arith)
        requires
            0 <= w <= 0xFFFF,
    ;
}

} // verus!
