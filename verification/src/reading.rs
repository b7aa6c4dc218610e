//! Reads of typed registers over a [`Connection`], and what they give.
//!
//! The specification functions here say, for a getter, which requests it sends (by the
//! [`Connection::history`] before and after) and which value it returns from the replies.
use vstd::prelude::*;

use crate::decode::{
    regs_i16, spec_regs_string, spec_u32, spec_u64, scaled, word_as_i16, word_to_i16, ReadingKind,
    ScaledValue,
};
use crate::error::ClientError;
use crate::transport::{fails_with_last_error, last_words, one_read, Connection, ReadError, ReadRecord};

verus! {

/// The number a reply stands for, read as a register of the given kind.
pub open spec fn decode_reading(kind: ReadingKind, w: Seq<u16>) -> int {
    match kind {
        ReadingKind::I16 => word_to_i16(w[0]),
        ReadingKind::U16 => w[0] as int,
        ReadingKind::U32 => spec_u32(w[0], w[1]),
        ReadingKind::U64 => spec_u64(w[0], w[1], w[2], w[3]),
    }
}

/// A getter that reads `count` registers from `addr` once and returns the first one.
pub open spec fn reads_u16(
    before: Seq<ReadRecord>,
    after: Seq<ReadRecord>,
    addr: int,
    count: int,
    r: Result<u16, ClientError>,
) -> bool {
    &&& one_read(before, after, addr, count)
    &&& match last_words(after) {
        Some(w) => r == Ok::<u16, ClientError>(w[0]),
        None => fails_with_last_error(after, r),
    }
}

/// A getter that reads `count` registers from `addr` once and returns the first two as
/// a big-endian number.
pub open spec fn reads_u32(
    before: Seq<ReadRecord>,
    after: Seq<ReadRecord>,
    addr: int,
    count: int,
    r: Result<u32, ClientError>,
) -> bool {
    &&& one_read(before, after, addr, count)
    &&& match last_words(after) {
        Some(w) => (r matches Ok(x) && x as int == spec_u32(w[0], w[1])),
        None => fails_with_last_error(after, r),
    }
}

/// A getter that reads `count` registers from `addr` once and returns the text they hold.
pub open spec fn reads_string(
    before: Seq<ReadRecord>,
    after: Seq<ReadRecord>,
    addr: int,
    count: int,
    r: Result<String, ClientError>,
) -> bool {
    &&& one_read(before, after, addr, count)
    &&& match last_words(after) {
        Some(w) => (r matches Ok(s) && s@ == spec_regs_string(w)),
        None => fails_with_last_error(after, r),
    }
}

/// A getter that reads `count` registers from `addr` once and returns the first one,
/// or `None` when it is SunSpec's "not implemented" marker `u16::MAX`.
pub open spec fn reads_optional_u16(
    before: Seq<ReadRecord>,
    after: Seq<ReadRecord>,
    addr: int,
    count: int,
    r: Result<Option<u16>, ClientError>,
) -> bool {
    &&& one_read(before, after, addr, count)
    &&& match last_words(after) {
        Some(w) => r == Ok::<Option<u16>, ClientError>(
            if w[0] == 0xffff {
                None
            } else {
                Some(w[0])
            },
        ),
        None => fails_with_last_error(after, r),
    }
}

/// A getter that reads `count` registers from `addr` once and returns the first two as
/// a big-endian number, or `None` when that is the marker `u32::MAX`.
pub open spec fn reads_optional_u32(
    before: Seq<ReadRecord>,
    after: Seq<ReadRecord>,
    addr: int,
    count: int,
    r: Result<Option<u32>, ClientError>,
) -> bool {
    &&& one_read(before, after, addr, count)
    &&& match last_words(after) {
        Some(w) => if spec_u32(w[0], w[1]) == 0xffff_ffff {
            r == Ok::<Option<u32>, ClientError>(None)
        } else {
            (r matches Ok(Some(x)) && x as int == spec_u32(w[0], w[1]))
        },
        None => fails_with_last_error(after, r),
    }
}

/// SunSpec's "not implemented" marker for a register of the given kind.
pub open spec fn not_implemented(kind: ReadingKind) -> int {
    match kind {
        ReadingKind::I16 => -0x8000,
        ReadingKind::U16 => 0xffff,
        ReadingKind::U32 => 0xffff_ffff,
        ReadingKind::U64 => 0xffff_ffff_ffff_ffff,
    }
}

/// The value that a reply stands for, with scale factor `k`, or `None` when it is the
/// "not implemented" marker.
pub open spec fn optional_reading(kind: ReadingKind, w: Seq<u16>, k: i16) -> Option<ScaledValue> {
    let v = decode_reading(kind, w);
    if v == not_implemented(kind) {
        None
    } else {
        Some(scaled(v, k))
    }
}

/// How a value register and its scale-factor register are fetched.
#[derive(Debug, Clone, Copy, PartialEq, Eq, Structural)]
pub enum ScaledReadPlan {
    /// One request for `count` words from `start`: the value, then the scale factor.
    ValueThenScale { start: u16, count: u16 },
    /// One request for `count` words from `start`: the scale factor, then the value.
    ScaleThenValue { start: u16, count: u16 },
    /// Two requests, one per register.
    Separate,
}

/// The plan for a value register at `value_addr` spanning `value_size` words and its
/// scale factor at `scale_addr` spanning `scale_size` words.
pub open spec fn spec_plan_scaled_read(value_addr: int, value_size: int, scale_addr: int, scale_size: int)
    -> ScaledReadPlan {
    if value_addr + value_size == scale_addr {
        ScaledReadPlan::ValueThenScale {
            start: value_addr as u16,
            count: (value_size + scale_size) as u16,
        }
    } else if scale_addr + scale_size == value_addr {
        ScaledReadPlan::ScaleThenValue {
            start: scale_addr as u16,
            count: (scale_size + value_size) as u16,
        }
    } else {
        ScaledReadPlan::Separate
    }
}

/// Reads scale and the register in one call if they are adjacent (the value directly
/// followed by the scale factor, or the other way round), and separately otherwise.
pub fn plan_scaled_read(value_addr: u16, value_size: u16, scale_addr: u16, scale_size: u16) -> (r:
    ScaledReadPlan)
    requires
        value_addr + value_size <= u16::MAX,
        scale_addr + scale_size <= u16::MAX,
        value_size + scale_size <= u16::MAX,
    ensures
        r == spec_plan_scaled_read(value_addr as int, value_size as int, scale_addr as int, scale_size as int),
{
    if value_addr + value_size == scale_addr {
        ScaledReadPlan::ValueThenScale { start: value_addr, count: value_size + scale_size }
    } else if scale_addr + scale_size == value_addr {
        ScaledReadPlan::ScaleThenValue { start: scale_addr, count: scale_size + value_size }
    } else {
        ScaledReadPlan::Separate
    }
}

/// The value words that a combined reply holds.
pub open spec fn spec_split_value(plan: ScaledReadPlan, reply: Seq<u16>) -> Seq<u16> {
    match plan {
        ScaledReadPlan::ScaleThenValue { .. } => reply.drop_first(),
        _ => reply.drop_last(),
    }
}

/// The scale-factor word that a combined reply holds.
pub open spec fn spec_split_scale(plan: ScaledReadPlan, reply: Seq<u16>) -> u16 {
    match plan {
        ScaledReadPlan::ScaleThenValue { .. } => reply[0],
        _ => reply.last(),
    }
}

/// Splits the reply to a combined read: the scale factor is the last word when it
/// follows the value and the first word when it precedes it; the rest is the value.
pub fn split_scaled_reply(plan: ScaledReadPlan, reply: Vec<u16>) -> (r: (Vec<u16>, i16))
    requires
        !(plan is Separate),
        reply@.len() >= 1,
    ensures
        r.0@ == spec_split_value(plan, reply@),
        r.1 as int == word_to_i16(spec_split_scale(plan, reply@)),
{
    let mut combined = reply;
    match plan {
        ScaledReadPlan::ScaleThenValue { .. } => {
            let scale = combined.remove(0);
            assert(combined@ =~= reply@.drop_first());
            (combined, word_as_i16(scale))
        },
        _ => {
            let scale = combined.pop().unwrap();
            assert(combined@ =~= reply@.drop_last());
            (combined, word_as_i16(scale))
        },
    }
}

/// A combined read fetches exactly the two registers: in the reply to a request for
/// `count` words from `start`, the word for address `x` is at index `x - start`, and
/// splitting it hands back the value register's own words and the scale register's word.
pub proof fn lemma_combined_read_layout(value_addr: u16, value_size: u16, scale_addr: u16, reply: Seq<u16>)
    requires
        value_addr + value_size <= u16::MAX,
        scale_addr + 1 <= u16::MAX,
        !(spec_plan_scaled_read(value_addr as int, value_size as int, scale_addr as int, 1) is Separate),
        reply.len() == value_size + 1,
    ensures
        ({
            let plan = spec_plan_scaled_read(value_addr as int, value_size as int, scale_addr as int, 1);
            let start: int = match plan {
                ScaledReadPlan::ValueThenScale { start, .. } => start as int,
                ScaledReadPlan::ScaleThenValue { start, .. } => start as int,
                ScaledReadPlan::Separate => 0,
            };
            &&& spec_split_value(plan, reply).len() == value_size
            &&& forall|j: int|
                0 <= j < value_size ==> #[trigger] spec_split_value(plan, reply)[j] == reply[value_addr
                    + j - start]
            &&& spec_split_scale(plan, reply) == reply[scale_addr - start]
        }),
{
}

/// The requests that fetch a value register (`n` words at `a`) and its scale factor
/// (`m` words at `s`): one request covering both when they are adjacent; otherwise the
/// value first and, if that succeeded, the scale factor.
pub open spec fn scaled_reads(before: Seq<ReadRecord>, after: Seq<ReadRecord>, a: int, n: int, s: int, m: int) -> bool {
    match spec_plan_scaled_read(a, n, s, m) {
        ScaledReadPlan::ValueThenScale { start, count } => one_read(before, after, start as int, count as int),
        ScaledReadPlan::ScaleThenValue { start, count } => one_read(before, after, start as int, count as int),
        ScaledReadPlan::Separate => {
            ||| one_read(before, after, a, n) && last_words(after) is None
            ||| one_read(before, after.drop_last(), a, n) && last_words(after.drop_last()) is Some
                && one_read(after.drop_last(), after, s, m)
        },
    }
}

/// The value words and the scale factor that those requests gave, if they all succeeded.
pub open spec fn scaled_words(before: Seq<ReadRecord>, after: Seq<ReadRecord>, a: int, n: int, s: int, m: int)
    -> Option<(Seq<u16>, i16)> {
    let plan = spec_plan_scaled_read(a, n, s, m);
    if plan is Separate {
        if after.len() == before.len() + 2 {
            match (last_words(after.drop_last()), last_words(after)) {
                (Some(v), Some(sw)) => Some((v, word_to_i16(sw[0]) as i16)),
                _ => None,
            }
        } else {
            None
        }
    } else {
        match last_words(after) {
            Some(w) => Some((spec_split_value(plan, w), word_to_i16(spec_split_scale(plan, w)) as i16)),
            None => None,
        }
    }
}

/// A getter of a scaled value: it makes the [`scaled_reads`] and returns the value words
/// read as `kind`, with the scale factor.
pub open spec fn reads_scaled(
    before: Seq<ReadRecord>,
    after: Seq<ReadRecord>,
    a: int,
    n: int,
    s: int,
    m: int,
    kind: ReadingKind,
    r: Result<ScaledValue, ClientError>,
) -> bool {
    &&& scaled_reads(before, after, a, n, s, m)
    &&& match scaled_words(before, after, a, n, s, m) {
        Some((w, k)) => r == Ok::<ScaledValue, ClientError>(scaled(decode_reading(kind, w), k)),
        None => fails_with_last_error(after, r),
    }
}

/// Reads the value register (`value_size` words at `value_addr`) and its scale factor
/// (`scale_size` words at `scale_addr`, of which the first is the factor), combining
/// the two reads when the registers are adjacent.
pub fn read_scaled(
    conn: &mut Connection,
    value_addr: u16,
    value_size: u16,
    scale_addr: u16,
    scale_size: u16,
) -> (r: Result<(Vec<u16>, i16), ReadError>)
    requires
        value_addr + value_size <= u16::MAX,
        scale_addr + scale_size <= u16::MAX,
        value_size + scale_size <= u16::MAX,
    ensures
        scaled_reads(
            old(conn).history(),
            final(conn).history(),
            value_addr as int,
            value_size as int,
            scale_addr as int,
            scale_size as int,
        ),
        match scaled_words(
            old(conn).history(),
            final(conn).history(),
            value_addr as int,
            value_size as int,
            scale_addr as int,
            scale_size as int,
        ) {
            Some((w, k)) => (r matches Ok((v, sf)) && v@ == w && sf == k),
            None => (r matches Err(e) && final(conn).history().last().outcome == Err::<Seq<u16>, ReadError>(e)),
        },
        r matches Ok((v, _)) ==> scale_size == 1 ==> v@.len() == value_size,
{
    match plan_scaled_read(value_addr, value_size, scale_addr, scale_size) {
        ScaledReadPlan::ValueThenScale { start, count } => {
            let combined = match conn.read_holding_registers(start, count) {
                Ok(regs) => regs,
                Err(e) => return Err(e),
            };
            Ok(split_scaled_reply(ScaledReadPlan::ValueThenScale { start, count }, combined))
        },
        ScaledReadPlan::ScaleThenValue { start, count } => {
            let combined = match conn.read_holding_registers(start, count) {
                Ok(regs) => regs,
                Err(e) => return Err(e),
            };
            Ok(split_scaled_reply(ScaledReadPlan::ScaleThenValue { start, count }, combined))
        },
        ScaledReadPlan::Separate => {
            let ghost before = conn.history();
            let value = match conn.read_holding_registers(value_addr, value_size) {
                Ok(regs) => regs,
                Err(e) => return Err(e),
            };
            let ghost mid = conn.history();
            let scale = match conn.read_holding_registers(scale_addr, scale_size) {
                Ok(regs) => regs,
                Err(e) => return Err(e),
            };
            assert(conn.history().drop_last() == mid);
            Ok((value, regs_i16(&scale)))
        },
    }
}

} // verus!
