//! Decoding of raw holding-register replies into typed values.
//!
//! A reply is a sequence of 16-bit registers.  Multi-register numbers are big-endian
//! (most significant register first), strings are packed two bytes per register,
//! high byte first, and end at the first NUL byte.
use vstd::prelude::*;

verus! {

/// A decimal quantity `value * 10^scale`, as the device reports it: a value
/// register together with its SunSpec scale-factor register.
#[derive(Clone, Copy, Debug)]
pub struct ScaledValue {
    pub value: i128,
    pub scale: i16,
}

/// The quantity `value * 10^scale` is written `(value, scale)`.
pub open spec fn scaled(value: int, scale: i16) -> ScaledValue {
    ScaledValue { value: value as i128, scale }
}

/// A value read from one signed register.
pub open spec fn is_i16_reading(v: ScaledValue) -> bool {
    -0x8000 <= v.value <= 0x7fff
}

/// The register type a value was read from.
#[derive(Clone, Copy, Debug, PartialEq, Eq, Structural)]
pub enum ReadingKind {
    I16,
    U16,
    U32,
    U64,
}

/// Two's-complement reading of a register.
pub open spec fn word_to_i16(w: u16) -> int {
    if w < 0x8000 { w as int } else { w as int - 0x1_0000 }
}

/// Big-endian value of two registers.
pub open spec fn spec_u32(hi: u16, lo: u16) -> int {
    hi as int * 0x1_0000 + lo as int
}

/// Big-endian value of four registers.
pub open spec fn spec_u64(w0: u16, w1: u16, w2: u16, w3: u16) -> int {
    ((w0 as int * 0x1_0000 + w1 as int) * 0x1_0000 + w2 as int) * 0x1_0000 + w3 as int
}

/// The bytes of a register sequence, high byte of each register first.
pub open spec fn reg_bytes(regs: Seq<u16>) -> Seq<u8> {
    Seq::new(
        2 * regs.len(),
        |k: int| if k % 2 == 0 { (regs[k / 2] / 0x100) as u8 } else { (regs[k / 2] % 0x100) as u8 },
    )
}

/// Number of bytes before the first NUL (all of them when there is none).
pub open spec fn nul_free_prefix_len(b: Seq<u8>) -> nat
    decreases b.len(),
{
    if b.len() == 0 || b[0] == 0 {
        0
    } else {
        1 + nul_free_prefix_len(b.drop_first())
    }
}

/// Each byte read as the character with that code point.
pub open spec fn bytes_to_chars(b: Seq<u8>) -> Seq<char> {
    b.map_values(|x: u8| x as char)
}

/// The text stored in a register sequence: the bytes up to the first NUL, as characters.
pub open spec fn spec_regs_string(regs: Seq<u16>) -> Seq<char> {
    let b = reg_bytes(regs);
    bytes_to_chars(b.take(nul_free_prefix_len(b) as int))
}

proof fn lemma_nul_free_prefix_len(b: Seq<u8>, k: int)
    requires
        0 <= k <= b.len(),
        forall|j: int| 0 <= j < k ==> b[j] != 0,
        k == b.len() || b[k] == 0,
    ensures
        nul_free_prefix_len(b) == k,
    decreases k,
{
    if k > 0 {
        assert(b.drop_first().len() == b.len() - 1);
        assert forall|j: int| 0 <= j < k - 1 implies b.drop_first()[j] != 0 by {
            assert(b.drop_first()[j] == b[j + 1]);
        }
        lemma_nul_free_prefix_len(b.drop_first(), k - 1);
    }
}

proof fn lemma_nul_free_prefix_bytes(b: Seq<u8>)
    ensures
        nul_free_prefix_len(b) <= b.len(),
        forall|j: int| 0 <= j < nul_free_prefix_len(b) ==> b[j] != 0,
        nul_free_prefix_len(b) < b.len() ==> b[nul_free_prefix_len(b) as int] == 0,
    decreases b.len(),
{
    if b.len() > 0 && b[0] != 0 {
        lemma_nul_free_prefix_bytes(b.drop_first());
        assert forall|j: int| 0 <= j < nul_free_prefix_len(b) implies b[j] != 0 by {
            if j > 0 {
                assert(b[j] == b.drop_first()[j - 1]);
            }
        }
    }
}

/// The text decoded from `n` registers has at most `2 n` characters, none of them NUL,
/// and it is all of their bytes exactly when none of the bytes is NUL.
pub proof fn lemma_regs_string_shape(regs: Seq<u16>)
    ensures
        spec_regs_string(regs).len() <= 2 * regs.len(),
        forall|i: int| 0 <= i < spec_regs_string(regs).len() ==> #[trigger] spec_regs_string(regs)[i] != '\0',
        spec_regs_string(regs).len() == 2 * regs.len() <==> (forall|j: int| 0 <= j < 2 * regs.len() ==> #[trigger] reg_bytes(regs)[j] != 0),
{
    let b = reg_bytes(regs);
    lemma_nul_free_prefix_bytes(b);
    let k = nul_free_prefix_len(b) as int;
    assert forall|i: int| 0 <= i < spec_regs_string(regs).len() implies #[trigger] spec_regs_string(regs)[i] != '\0' by {
        assert(spec_regs_string(regs)[i] == (b[i] as char));
        assert(b[i] != 0);
        assert((b[i] as char) != '\0');
    }
    if k < 2 * regs.len() {
        assert(b[k] == 0);
    } else {
        assert forall|j: int| 0 <= j < 2 * regs.len() implies #[trigger] reg_bytes(regs)[j] != 0 by {
            assert(j < k);
        }
    }
}

/// Calls `String::push`, which appends the character to the end of the string.
#[verifier::external_body]
fn string_push(s: &mut String, c: char)
    ensures
        final(s)@ == old(s)@.push(c),
{
    s.push(c);
}

/// The first register.
pub fn regs_u16(regs: &Vec<u16>) -> (r: u16)
    requires
        regs@.len() >= 1,
    ensures
        r == regs@[0],
{
    regs[0]
}

/// The first register, read as a signed (two's-complement) number.
pub fn regs_i16(regs: &Vec<u16>) -> (r: i16)
    requires
        regs@.len() >= 1,
    ensures
        r as int == word_to_i16(regs@[0]),
{
    word_as_i16(regs[0])
}

/// A register read as a signed (two's-complement) number.
pub fn word_as_i16(w: u16) -> (r: i16)
    ensures
        r as int == word_to_i16(w),
{
    let r = w as i16;
    assert(w < 0x8000u16 ==> (w as i16) as int == w as int) by (bit_vector);
    assert(w >= 0x8000u16 ==> (w as i16) as int == w as int - 0x1_0000) by (bit_vector);
    r
}

/// The first two registers as a big-endian unsigned 32-bit number.
pub fn regs_u32(regs: &Vec<u16>) -> (r: u32)
    requires
        regs@.len() >= 2,
    ensures
        r as int == spec_u32(regs@[0], regs@[1]),
{
    let hi = regs[0];
    let lo = regs[1];
    assert(((hi as u32) << 16u32) | (lo as u32) == hi as u32 * 0x1_0000u32 + lo as u32)
        by (bit_vector);
    ((hi as u32) << 16u32) | (lo as u32)
}

/// The first four registers as a big-endian unsigned 64-bit number.
pub fn regs_u64(regs: &Vec<u16>) -> (r: u64)
    requires
        regs@.len() >= 4,
    ensures
        r as int == spec_u64(regs@[0], regs@[1], regs@[2], regs@[3]),
{
    let a = regs[0];
    let b = regs[1];
    let c = regs[2];
    let d = regs[3];
    let r = ((a as u64) << 48u64) | ((b as u64) << 32u64) | ((c as u64) << 16u64) | (d as u64);
    assert(((a as u64) << 48u64) | ((b as u64) << 32u64) | ((c as u64) << 16u64) | (d as u64)
        == ((a as u64 * 0x1_0000u64 + b as u64) * 0x1_0000u64 + c as u64) * 0x1_0000u64 + d as u64)
        by (bit_vector);
    r
}

/// The text held by the registers: their bytes, high byte first, up to the first NUL,
/// each byte taken as the character with that code point.
pub fn regs_string(regs: &Vec<u16>) -> (s: String)
    ensures
        s@ == spec_regs_string(regs@),
{
    let mut out = String::new();
    let n = regs.len();
    let ghost b = reg_bytes(regs@);
    let mut i: usize = 0;
    while i < n
        invariant
            n == regs@.len(),
            0 <= i <= n,
            b == reg_bytes(regs@),
            forall|j: int| 0 <= j < 2 * i ==> b[j] != 0,
            out@ == bytes_to_chars(b.take(2 * i)),
        decreases n - i,
    {
        let w = regs[i];
        let hi = (w >> 8u16) as u8;
        let lo = (w & 0xffu16) as u8;
        assert(hi as int == w / 0x100 && lo as int == w % 0x100) by (bit_vector)
            requires
                hi == (w >> 8u16) as u8,
                lo == (w & 0xffu16) as u8,
        ;
        assert(b[2 * i] == hi);
        assert(b[2 * i + 1] == lo);
        if hi == 0 {
            proof {
                lemma_nul_free_prefix_len(b, 2 * i);
            }
            return out;
        }
        proof {
            assert(b.take(2 * i + 1) =~= b.take(2 * i).push(hi));
        }
        string_push(&mut out, hi as char);
        if lo == 0 {
            proof {
                lemma_nul_free_prefix_len(b, 2 * i + 1);
                assert(out@ =~= bytes_to_chars(b.take(2 * i + 1)));
            }
            return out;
        }
        proof {
            assert(b.take(2 * i + 2) =~= b.take(2 * i + 1).push(lo));
        }
        string_push(&mut out, lo as char);
        assert(out@ =~= bytes_to_chars(b.take(2 * i + 2)));
        i = i + 1;
    }
    proof {
        lemma_nul_free_prefix_len(b, 2 * n as int);
        assert(b.take(2 * n as int) =~= b);
    }
    out
}

/// An unsigned register value with its scale factor.
pub fn scaled_u16(value: u16, scale: i16) -> (r: ScaledValue)
    ensures
        r == scaled(value as int, scale),
{
    ScaledValue { value: value as i128, scale }
}

/// A signed register value with its scale factor.
pub fn scaled_i16(value: i16, scale: i16) -> (r: ScaledValue)
    ensures
        r == scaled(value as int, scale),
{
    ScaledValue { value: value as i128, scale }
}

/// An unsigned 32-bit value with its scale factor.
pub fn scaled_u32(value: u32, scale: i16) -> (r: ScaledValue)
    ensures
        r == scaled(value as int, scale),
{
    ScaledValue { value: value as i128, scale }
}

/// An unsigned 64-bit value with its scale factor.
pub fn scaled_u64(value: u64, scale: i16) -> (r: ScaledValue)
    ensures
        r == scaled(value as int, scale),
{
    ScaledValue { value: value as i128, scale }
}

/// SunSpec marks an unsigned 16-bit register that is not implemented with `u16::MAX`.
pub fn optional_u16(value: u16) -> (r: Option<u16>)
    ensures
        r == (if value == u16::MAX { None } else { Some(value) }),
{
    if value == u16::MAX {
        None
    } else {
        Some(value)
    }
}

/// SunSpec marks an unsigned 32-bit register pair that is not implemented with `u32::MAX`.
pub fn optional_u32(value: u32) -> (r: Option<u32>)
    ensures
        r == (if value == u32::MAX { None } else { Some(value) }),
{
    if value == u32::MAX {
        None
    } else {
        Some(value)
    }
}

/// SunSpec marks a signed 16-bit value that is not implemented with `i16::MIN`.
pub fn optional_scaled_i16(value: i16, scale: i16) -> (r: Option<ScaledValue>)
    ensures
        r == (if value == i16::MIN { None } else { Some(scaled(value as int, scale)) }),
{
    if value != i16::MIN {
        Some(scaled_i16(value, scale))
    } else {
        None
    }
}

/// SunSpec marks an unsigned 16-bit value that is not implemented with `u16::MAX`.
pub fn optional_scaled_u16(value: u16, scale: i16) -> (r: Option<ScaledValue>)
    ensures
        r == (if value == u16::MAX { None } else { Some(scaled(value as int, scale)) }),
{
    if value != u16::MAX {
        Some(scaled_u16(value, scale))
    } else {
        None
    }
}

/// SunSpec marks an unsigned 32-bit value that is not implemented with `u32::MAX`.
pub fn optional_scaled_u32(value: u32, scale: i16) -> (r: Option<ScaledValue>)
    ensures
        r == (if value == u32::MAX { None } else { Some(scaled(value as int, scale)) }),
{
    if value != u32::MAX {
        Some(scaled_u32(value, scale))
    } else {
        None
    }
}

/// SunSpec marks an unsigned 64-bit value that is not implemented with `u64::MAX`.
pub fn optional_scaled_u64(value: u64, scale: i16) -> (r: Option<ScaledValue>)
    ensures
        r == (if value == u64::MAX { None } else { Some(scaled(value as int, scale)) }),
{
    if value != u64::MAX {
        Some(scaled_u64(value, scale))
    } else {
        None
    }
}

} // verus!
