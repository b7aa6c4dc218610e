//! Meter slots of an inverter, and the probe that finds out what a slot holds.
use vstd::prelude::*;

use crate::der_ac::{DerAcClient, DerAcReg};
use crate::error::ClientError;
use crate::meter::MeterClient;
use crate::transport::{error_kind_of, one_read, ConnectParams, Connection, ModbusErrorKind, ReadError, ReadRecord};

verus! {

/// Address of the first register of slot one.
pub const SLOT1_BASE: u16 = 40121;
/// Distance between the first registers of consecutive slots.
pub const SLOT_SPACING: u16 = 174;
/// Read timeout, in seconds, of every connection this library opens.
pub const READ_TIMEOUT_SECS: u64 = 3;

/// Each SolarEdge inverter has three meter slots, each of which may be empty.
#[derive(Clone, Copy, Debug, PartialEq, Eq, Structural, PartialOrd, Ord, Hash)]
pub enum SlotNumber {
    One,
    Two,
    Three,
}

impl SlotNumber {
    /// All possible [`SlotNumber`]s.  Useful for iterating.
    pub const ALL: [SlotNumber; 3] = [SlotNumber::One, SlotNumber::Two, SlotNumber::Three];

    /// The slot's number, 1 to 3.
    pub open spec fn spec_number(self) -> int {
        match self {
            SlotNumber::One => 1,
            SlotNumber::Two => 2,
            SlotNumber::Three => 3,
        }
    }

    /// Address of the slot's first register.
    pub open spec fn spec_base(self) -> int {
        SLOT1_BASE + (self.spec_number() - 1) * SLOT_SPACING
    }

    /// The slot's number, 1 to 3.
    pub fn number(self) -> (r: u8)
        ensures
            r as int == self.spec_number(),
    {
        match self {
            SlotNumber::One => 1,
            SlotNumber::Two => 2,
            SlotNumber::Three => 3,
        }
    }

    /// Address of the slot's first register: slot one starts at 40121, each next slot
    /// 174 registers further.
    pub fn base(self) -> (r: u16)
        ensures
            r as int == self.spec_base(),
    {
        let n = self.number() as u16;
        SLOT1_BASE + (n - 1) * SLOT_SPACING
    }
}

/// Whether `b` is the first register of one of the three slots.
pub open spec fn is_slot_base(b: int) -> bool {
    b == SlotNumber::One.spec_base() || b == SlotNumber::Two.spec_base() || b
        == SlotNumber::Three.spec_base()
}

/// The first register address of one of the three slots.
#[derive(Clone, Copy, Debug)]
pub struct SlotBase {
    base: u16,
}

impl SlotBase {
    #[verifier::type_invariant]
    spec fn is_valid(self) -> bool {
        is_slot_base(self.base as int)
    }

    /// The address.
    pub closed spec fn spec_value(self) -> u16 {
        self.base
    }

    /// The base address of `slot`.
    pub fn of_slot(slot: SlotNumber) -> (r: SlotBase)
        ensures
            r.spec_value() == slot.spec_base(),
    {
        SlotBase { base: slot.base() }
    }

    /// Wraps an address that is known to be a slot base.
    pub(crate) fn new(base: u16) -> (r: SlotBase)
        requires
            is_slot_base(base as int),
        ensures
            r.spec_value() == base,
    {
        SlotBase { base }
    }

    /// The address; always one of the three slot bases.
    pub fn value(&self) -> (r: u16)
        ensures
            r == self.spec_value(),
            is_slot_base(r as int),
    {
        proof {
            use_type_invariant(self);
        }
        self.base
    }
}

/// Distinct slots start at least a slot's spacing apart, so their register windows
/// `[base, base + 174)` do not overlap.
pub proof fn lemma_slot_windows_disjoint(a: SlotNumber, b: SlotNumber)
    requires
        a != b,
    ensures
        a.spec_base() + SLOT_SPACING <= b.spec_base() || b.spec_base() + SLOT_SPACING
            <= a.spec_base(),
{
}

/// Every slot base is one of the three slot addresses, in order 40121, 40295, 40469.
pub proof fn lemma_slot_bases(s: SlotNumber)
    ensures
        is_slot_base(s.spec_base()),
        SlotNumber::One.spec_base() == 40121,
        SlotNumber::Two.spec_base() == 40295,
        SlotNumber::Three.spec_base() == 40469,
{
}

/// What a slot holds, as far as the probe is concerned.
#[derive(Clone, Copy, Debug, PartialEq, Eq, Structural)]
pub enum SlotKind {
    /// A SunSpec AC meter (models 201 to 204).
    Meter,
    /// A SunSpec DER AC measurement block (model 701).
    DerAc,
    /// Nothing usable.
    Empty,
}

/// The register that the probe reads next.
#[derive(Clone, Copy, Debug, PartialEq, Eq, Structural)]
pub enum ProbeStage {
    /// The model id at the slot's first register.
    CommonHeader,
    /// The meter model id that follows the common block, at offset 67.
    MeterHeader,
    /// A data register of the meter (the manufacturer, at offset 2).
    MeterData,
}

/// How one probe read went.
#[derive(Clone, Copy, Debug, PartialEq, Eq, Structural)]
pub enum ProbeReply {
    /// The read succeeded; the first register read.
    Value(u16),
    /// The read failed in the way unoccupied slots fail: a Modbus exception reply or a
    /// read timeout.
    EmptySlot,
    /// The read failed otherwise.
    Failed,
}

/// What the probe does after a read.
#[derive(Clone, Copy, Debug, PartialEq, Eq, Structural)]
pub enum ProbeStep {
    /// Read the register of this stage next.
    Next(ProbeStage),
    /// The slot holds this.
    Found(SlotKind),
    /// Give up and report the read's error.
    Abort,
}

impl ProbeStage {
    /// Offset, from the slot's base, of the register read at this stage.
    pub open spec fn spec_offset(self) -> int {
        match self {
            ProbeStage::CommonHeader => 0,
            ProbeStage::MeterHeader => 67,
            ProbeStage::MeterData => 2,
        }
    }

    /// How many reads remain at most, this one included.
    pub open spec fn remaining_reads(self) -> nat {
        match self {
            ProbeStage::CommonHeader => 3,
            ProbeStage::MeterHeader => 2,
            ProbeStage::MeterData => 1,
        }
    }

    /// Offset, from the slot's base, of the register read at this stage.
    pub fn offset(self) -> (r: u16)
        ensures
            r as int == self.spec_offset(),
    {
        match self {
            ProbeStage::CommonHeader => 0,
            ProbeStage::MeterHeader => 67,
            ProbeStage::MeterData => 2,
        }
    }
}

/// The probe's decision after one read.
pub open spec fn spec_probe_step(stage: ProbeStage, reply: ProbeReply) -> ProbeStep {
    match reply {
        ProbeReply::EmptySlot => ProbeStep::Found(SlotKind::Empty),
        ProbeReply::Failed => ProbeStep::Abort,
        ProbeReply::Value(v) => match stage {
            ProbeStage::CommonHeader => if v == 1 {
                ProbeStep::Next(ProbeStage::MeterHeader)
            } else if v == 701 {
                ProbeStep::Found(SlotKind::DerAc)
            } else {
                ProbeStep::Found(SlotKind::Empty)
            },
            ProbeStage::MeterHeader => if 201 <= v <= 204 {
                ProbeStep::Next(ProbeStage::MeterData)
            } else {
                ProbeStep::Found(SlotKind::Empty)
            },
            ProbeStage::MeterData => ProbeStep::Found(SlotKind::Meter),
        },
    }
}

/// The probe's decision after one read: a common block (model id 1) leads on to the
/// meter header, model 701 is a DER AC block, a meter model id of 201 to 204 leads on to
/// a data register, and a data register that answers makes the slot a meter.  Any other
/// value leaves the slot empty, as does a read that fails the way empty slots fail; any
/// other failure aborts.
pub fn probe_step(stage: ProbeStage, reply: ProbeReply) -> (r: ProbeStep)
    ensures
        r == spec_probe_step(stage, reply),
        r matches ProbeStep::Next(next) ==> next.remaining_reads() < stage.remaining_reads(),
{
    match reply {
        ProbeReply::EmptySlot => ProbeStep::Found(SlotKind::Empty),
        ProbeReply::Failed => ProbeStep::Abort,
        ProbeReply::Value(v) => match stage {
            ProbeStage::CommonHeader => if v == 1 {
                ProbeStep::Next(ProbeStage::MeterHeader)
            } else if v == 701 {
                ProbeStep::Found(SlotKind::DerAc)
            } else {
                ProbeStep::Found(SlotKind::Empty)
            },
            ProbeStage::MeterHeader => if 201 <= v && v <= 204 {
                ProbeStep::Next(ProbeStage::MeterData)
            } else {
                ProbeStep::Found(SlotKind::Empty)
            },
            ProbeStage::MeterData => ProbeStep::Found(SlotKind::Meter),
        },
    }
}

/// What a slot holds, given the replies to the three probe reads (a reply that the
/// probe never asks for is ignored); `None` when the probe aborts.
pub open spec fn spec_classify_slot(common: ProbeReply, meter_header: ProbeReply, data: ProbeReply)
    -> Option<SlotKind> {
    match common {
        ProbeReply::Failed => None,
        ProbeReply::EmptySlot => Some(SlotKind::Empty),
        ProbeReply::Value(did) => if did == 701 {
            Some(SlotKind::DerAc)
        } else if did != 1 {
            Some(SlotKind::Empty)
        } else {
            match meter_header {
                ProbeReply::Failed => None,
                ProbeReply::EmptySlot => Some(SlotKind::Empty),
                ProbeReply::Value(mdid) => if !(201 <= mdid <= 204) {
                    Some(SlotKind::Empty)
                } else {
                    match data {
                        ProbeReply::Failed => None,
                        ProbeReply::EmptySlot => Some(SlotKind::Empty),
                        ProbeReply::Value(_) => Some(SlotKind::Meter),
                    }
                }
            }
        }
    }
}

/// Runs the probe from `stage` on the replies of the three stages.
pub open spec fn spec_run_probe(
    stage: ProbeStage,
    common: ProbeReply,
    meter_header: ProbeReply,
    data: ProbeReply,
) -> Option<SlotKind>
    decreases stage.remaining_reads(),
{
    let reply = match stage {
        ProbeStage::CommonHeader => common,
        ProbeStage::MeterHeader => meter_header,
        ProbeStage::MeterData => data,
    };
    match spec_probe_step(stage, reply) {
        ProbeStep::Found(k) => Some(k),
        ProbeStep::Abort => None,
        ProbeStep::Next(next) => if next.remaining_reads() < stage.remaining_reads() {
            spec_run_probe(next, common, meter_header, data)
        } else {
            None
        },
    }
}

/// Stepping the probe from the common header, one read per step, ends after at most
/// three reads with what the slot layout says: a DER AC block for model 701, a meter
/// for a common block followed by a meter model 201 to 204 whose data register answers,
/// an empty slot otherwise, and an error when a read fails other than the way empty
/// slots fail.
pub proof fn lemma_probe_classifies(common: ProbeReply, meter_header: ProbeReply, data: ProbeReply)
    ensures
        spec_run_probe(ProbeStage::CommonHeader, common, meter_header, data)
            == spec_classify_slot(common, meter_header, data),
{
    reveal_with_fuel(spec_run_probe, 3);
}

/// Supported types of meter [`Slot`]s.  May be extended to add other types.
pub enum Slot {
    Meter(MeterClient),
    DerAc(DerAcClient),
    Empty,
}

impl Slot {
    /// Finds out what `slot` holds by reading over `conn`, one register per step with
    /// [`probe_step`], starting at the common header: at most three reads.  The reads it
    /// adds to the connection's history form a complete probe of the slot
    /// ([`is_probe_run`]); the result is what that probe found ([`probe_outcome`]), or the
    /// error of the read that made it abort.
    pub fn probe(conn: &mut Connection, slot: SlotNumber) -> (r: Result<SlotKind, ReadError>)
        ensures
            final(conn).opened_with() == old(conn).opened_with(),
            old(conn).history().len() < final(conn).history().len(),
            final(conn).history().subrange(0, old(conn).history().len() as int) == old(conn).history(),
            is_probe_run(new_reads(old(conn).history(), final(conn).history()), slot.spec_base()),
            match r {
                Ok(k) => probe_outcome(new_reads(old(conn).history(), final(conn).history())) == Some(k),
                Err(e) => {
                    &&& probe_outcome(new_reads(old(conn).history(), final(conn).history())) is None
                    &&& final(conn).history().last().outcome == Err::<Seq<u16>, ReadError>(e)
                    &&& e.kind == error_kind_of(e.error)
                },
            },
    {
        let ghost h0 = conn.history();
        let ghost params = conn.opened_with();
        let ghost mut run: Seq<ReadRecord> = Seq::empty();
        let base = slot.base();
        let mut stage = ProbeStage::CommonHeader;
        assert(conn.history() =~= h0 + run);
        loop
            invariant
                base as int == slot.spec_base(),
                conn.history() == h0 + run,
                conn.opened_with() == params,
                params == old(conn).opened_with(),
                h0 == old(conn).history(),
                run.len() <= 2,
                stage == stage_at(run.len() as int),
                probe_prefix(run, base as int),
            decreases 3 - run.len(),
        {
            let ghost before = run;
            let ghost hist_before = conn.history();
            let res = conn.read_holding_registers(base + stage.offset(), 1);
            proof {
                run = run.push(conn.history().last());
                assert(run.drop_last() =~= before);
                assert(conn.history() =~= hist_before.push(conn.history().last()));
                assert(h0 + run =~= (h0 + before).push(run.last()));
                lemma_probe_extend(before, run, base as int);
                lemma_new_reads(h0, run);
            }
            let step = match res {
                Ok(regs) => probe_step(stage, ProbeReply::Value(regs[0])),
                Err(e) => {
                    if is_empty_slot_error(e.kind) {
                        probe_step(stage, ProbeReply::EmptySlot)
                    } else {
                        proof {
                            assert(probe_reply_of(run.last()) == ProbeReply::Failed);
                            assert(spec_probe_step(stage, ProbeReply::Failed) == ProbeStep::Abort);
                            assert(stage == stage_at(run.len() - 1));
                            lemma_probe_run_complete(run, base as int);
                        }
                        return Err(e);
                    }
                },
            };
            assert(step == spec_probe_step(stage_at(run.len() - 1), probe_reply_of(run.last())));
            match step {
                ProbeStep::Next(next) => {
                    proof {
                        lemma_probe_prefix_grows(run, base as int, next);
                    }
                    stage = next;
                },
                ProbeStep::Found(kind) => {
                    proof {
                        lemma_probe_run_complete(run, base as int);
                    }
                    return Ok(kind);
                },
                ProbeStep::Abort => {
                    // A failed read has returned above; the probe aborts on nothing else.
                    proof {
                        assert(false);
                    }
                    return Ok(SlotKind::Empty);
                },
            }
        }
    }

    /// The slot for what a probe found at `base`: a client that takes over the connection
    /// for a meter or a DER AC block (with no scale factor read yet), nothing for an empty
    /// slot.  With [`Slot::probe`] this is [`Slot::open_on_transport`] on a connection the
    /// caller keeps hold of until the probe has answered.
    pub fn from_probe(conn: Connection, base: u16, kind: SlotKind) -> (r: Self)
        requires
            is_slot_base(base as int),
        ensures
            match kind {
                SlotKind::Meter => r matches Slot::Meter(m) && m.connection() == conn && m.spec_base() == base,
                SlotKind::DerAc => {
                    &&& r matches Slot::DerAc(d)
                    &&& d.connection() == conn
                    &&& d.spec_base() == base
                    &&& forall|reg: DerAcReg| #[trigger] d.spec_cache().cached(reg) is None
                },
                SlotKind::Empty => r is Empty,
            },
    {
        match kind {
            SlotKind::Meter => Slot::Meter(MeterClient::from_transport(conn, base)),
            SlotKind::DerAc => Slot::DerAc(DerAcClient::from_transport(conn, base)),
            SlotKind::Empty => Slot::Empty,
        }
    }

    /// What kind of slot this is.
    pub open spec fn kind(self) -> SlotKind {
        match self {
            Slot::Meter(_) => SlotKind::Meter,
            Slot::DerAc(_) => SlotKind::DerAc,
            Slot::Empty => SlotKind::Empty,
        }
    }

    /// Opens `slot` over an open connection: probes it with [`Slot::probe`] and hands the
    /// connection over with [`Slot::from_probe`].  Besides the slot it gives back, as ghost
    /// state, the probe's reads: the slot opened is of the kind those reads found (an empty
    /// slot only when they found it empty), and an error is the Modbus error of the read
    /// that made the probe abort.
    pub fn open_on_connection(conn: Connection, slot: SlotNumber) -> (r: (
        Result<Self, ClientError>,
        Ghost<Seq<ReadRecord>>,
    ))
        ensures
            is_probe_run(r.1@, slot.spec_base()),
            match r.0 {
                Ok(s) => {
                    &&& probe_outcome(r.1@) == Some(s.kind())
                    &&& s matches Slot::Meter(m) ==> {
                        &&& m.spec_base() == slot.spec_base()
                        &&& m.history() == conn.history() + r.1@
                        &&& m.opened_with() == conn.opened_with()
                    }
                    &&& s matches Slot::DerAc(d) ==> {
                        &&& d.spec_base() == slot.spec_base()
                        &&& d.history() == conn.history() + r.1@
                        &&& d.opened_with() == conn.opened_with()
                        &&& forall|reg: DerAcReg| #[trigger] d.spec_cache().cached(reg) is None
                    }
                },
                Err(e) => {
                    &&& probe_outcome(r.1@) is None
                    &&& r.1@.last().outcome matches Err(re) && e == ClientError::Modbus(re.error)
                        && re.kind == error_kind_of(re.error)
                },
            },
    {
        let mut conn = conn;
        let ghost h0 = conn.history();
        let base = slot.base();
        proof {
            lemma_slot_bases(slot);
        }
        let res = Self::probe(&mut conn, slot);
        let ghost run = new_reads(h0, conn.history());
        proof {
            assert(conn.history() =~= h0 + run);
            assert(conn.history().last() == run.last());
        }
        match res {
            Ok(kind) => (Ok(Self::from_probe(conn, base, kind)), Ghost(run)),
            Err(e) => (Err(ClientError::Modbus(e.error)), Ghost(run)),
        }
    }

    /// Open a slot on an existing transport, reusing a connection established by the caller.
    ///
    /// Useful when the caller already has an open Modbus TCP session (e.g. from `TcpClient`)
    /// and wants to avoid closing and reopening the connection, which can cause SolarEdge
    /// inverters to fail due to their single-session limitation.
    ///
    /// The slot is opened with [`Slot::open_on_connection`], whose contract ties the kind of
    /// slot to the probe's reads; those reads are kept only by a meter or DER AC client.
    /// A meter or DER AC client keeps the connection, with the probe's reads as its
    /// history; an error is the Modbus error of the read that made the probe abort, never
    /// one of the kind that empty slots give.
    pub fn open_on_transport(transport: modbus::tcp::Transport, slot: SlotNumber) -> (r: Result<
        Self,
        ClientError,
    >)
        ensures
            r matches Ok(Slot::Meter(m)) ==> {
                &&& m.spec_base() == slot.spec_base()
                &&& m.opened_with() is None
                &&& is_probe_run(m.history(), slot.spec_base())
                &&& probe_outcome(m.history()) == Some(SlotKind::Meter)
            },
            r matches Ok(Slot::DerAc(d)) ==> {
                &&& d.spec_base() == slot.spec_base()
                &&& d.opened_with() is None
                &&& is_probe_run(d.history(), slot.spec_base())
                &&& probe_outcome(d.history()) == Some(SlotKind::DerAc)
                &&& forall|reg: DerAcReg| #[trigger] d.spec_cache().cached(reg) is None
            },
            r matches Err(e) ==> e matches ClientError::Modbus(err) && !is_empty_slot_kind(
                error_kind_of(err),
            ),
    {
        let conn = Connection::new(transport);
        let (r, Ghost(run)) = Self::open_on_connection(conn, slot);
        proof {
            lemma_empty_prefix(run);
        }
        r
    }

    /// Open a slot by creating a new TCP connection.
    ///
    /// The connection is opened to `address:port` for unit `device_id` with a read timeout
    /// of [`READ_TIMEOUT_SECS`] seconds, and the slot is then found out as in
    /// [`Slot::open_on_transport`]; a connection that cannot be opened is reported as
    /// [`ClientError::Io`].
    pub fn open(address: &str, port: u16, device_id: u8, slot: SlotNumber) -> (r: Result<Self, ClientError>)
        ensures
            r matches Ok(Slot::Meter(m)) ==> {
                &&& m.spec_base() == slot.spec_base()
                &&& is_probe_run(m.history(), slot.spec_base())
                &&& probe_outcome(m.history()) == Some(SlotKind::Meter)
                &&& m.opened_with() == Some(
                    ConnectParams { address: address@, port, modbus_uid: device_id, read_timeout_secs: READ_TIMEOUT_SECS },
                )
            },
            r matches Ok(Slot::DerAc(d)) ==> {
                &&& d.spec_base() == slot.spec_base()
                &&& is_probe_run(d.history(), slot.spec_base())
                &&& probe_outcome(d.history()) == Some(SlotKind::DerAc)
                &&& d.opened_with() == Some(
                    ConnectParams { address: address@, port, modbus_uid: device_id, read_timeout_secs: READ_TIMEOUT_SECS },
                )
                &&& forall|reg: DerAcReg| #[trigger] d.spec_cache().cached(reg) is None
            },
            r matches Err(e) ==> e is Io || (e matches ClientError::Modbus(err) && !is_empty_slot_kind(
                error_kind_of(err),
            )),
    {
        match Connection::open(address, port, device_id, READ_TIMEOUT_SECS) {
            Ok(conn) => {
                let (r, Ghost(run)) = Self::open_on_connection(conn, slot);
                proof {
                    lemma_empty_prefix(run);
                }
                r
            },
            Err(e) => Err(ClientError::Io(e)),
        }
    }
}

/// The reads that `after` holds past the first `before.len()`.
pub open spec fn new_reads(before: Seq<ReadRecord>, after: Seq<ReadRecord>) -> Seq<ReadRecord> {
    after.subrange(before.len() as int, after.len() as int)
}

proof fn lemma_new_reads(h0: Seq<ReadRecord>, run: Seq<ReadRecord>)
    ensures
        new_reads(h0, h0 + run) == run,
        (h0 + run).subrange(0, h0.len() as int) == h0,
        run.len() > 0 ==> (h0 + run).last() == run.last(),
{
    assert(new_reads(h0, h0 + run) =~= run);
    assert((h0 + run).subrange(0, h0.len() as int) =~= h0);
}

proof fn lemma_empty_prefix(h: Seq<ReadRecord>)
    ensures
        Seq::<ReadRecord>::empty() + h == h,
{
    assert(Seq::<ReadRecord>::empty() + h =~= h);
}

/// Whether a failure is of the kind that unoccupied slots give: a Modbus exception reply,
/// or a read that timed out.
pub open spec fn is_empty_slot_kind(kind: ModbusErrorKind) -> bool {
    kind == ModbusErrorKind::Exception || kind == ModbusErrorKind::IoWouldBlock
}

/// The stage of the probe's `i`-th read (counting from 0).
pub open spec fn stage_at(i: int) -> ProbeStage {
    if i == 0 {
        ProbeStage::CommonHeader
    } else if i == 1 {
        ProbeStage::MeterHeader
    } else {
        ProbeStage::MeterData
    }
}

/// How the probe reads a recorded reply: its first register, or the kind of failure.
pub open spec fn probe_reply_of(rec: ReadRecord) -> ProbeReply {
    match rec.outcome {
        Ok(w) => ProbeReply::Value(w[0]),
        Err(e) => if is_empty_slot_kind(e.kind) {
            ProbeReply::EmptySlot
        } else {
            ProbeReply::Failed
        },
    }
}

/// `h` is the start of a probe of the slot at `base`: each read is one register at the
/// offset of its stage, and each leads on to the next stage.
pub open spec fn probe_prefix(h: Seq<ReadRecord>, base: int) -> bool {
    &&& forall|i: int| #![trigger h[i]] 0 <= i < h.len() ==> h[i].addr == base + stage_at(i).spec_offset()
        && h[i].count == 1
    &&& forall|i: int|
        0 <= i < h.len() ==> spec_probe_step(stage_at(i), probe_reply_of(#[trigger] h[i]))
            == ProbeStep::Next(stage_at(i + 1))
}

/// One more read at the offset of the next stage extends a probe.
proof fn lemma_probe_extend(before: Seq<ReadRecord>, h: Seq<ReadRecord>, base: int)
    requires
        before.len() <= 2,
        probe_prefix(before, base),
        one_read(before, h, base + stage_at(before.len() as int).spec_offset(), 1),
    ensures
        forall|i: int| #![trigger h[i]] 0 <= i < h.len() ==> h[i].addr == base + stage_at(i).spec_offset()
            && h[i].count == 1,
        forall|i: int|
            0 <= i < h.len() - 1 ==> spec_probe_step(stage_at(i), probe_reply_of(#[trigger] h[i]))
                == ProbeStep::Next(stage_at(i + 1)),
        1 <= h.len() <= 3,
{
    assert forall|i: int| #![trigger h[i]] 0 <= i < h.len() implies h[i].addr == base + stage_at(
        i,
    ).spec_offset() && h[i].count == 1 by {
        if i < h.len() - 1 {
            assert(h[i] == h.drop_last()[i]);
            assert(before[i] == h[i]);
            assert(before[i].addr == base + stage_at(i).spec_offset());
        } else {
            assert(i == before.len());
            assert(h[i] == h.last());
            assert(h.last().addr == base + stage_at(before.len() as int).spec_offset());
        }
    }
    assert forall|i: int| 0 <= i < h.len() - 1 implies spec_probe_step(
        stage_at(i),
        probe_reply_of(#[trigger] h[i]),
    ) == ProbeStep::Next(stage_at(i + 1)) by {
        assert(h[i] == h.drop_last()[i]);
        assert(before[i] == h[i]);
    }
}

proof fn lemma_probe_prefix_grows(h: Seq<ReadRecord>, base: int, next: ProbeStage)
    requires
        1 <= h.len() <= 3,
        forall|i: int| #![trigger h[i]] 0 <= i < h.len() ==> h[i].addr == base + stage_at(i).spec_offset()
            && h[i].count == 1,
        forall|i: int|
            0 <= i < h.len() - 1 ==> spec_probe_step(stage_at(i), probe_reply_of(#[trigger] h[i]))
                == ProbeStep::Next(stage_at(i + 1)),
        spec_probe_step(stage_at(h.len() - 1), probe_reply_of(h.last())) == ProbeStep::Next(next),
    ensures
        probe_prefix(h, base),
        h.len() <= 2,
        next == stage_at(h.len() as int),
{
    lemma_next_stage(h, next);
    assert forall|i: int|
        0 <= i < h.len() implies spec_probe_step(stage_at(i), probe_reply_of(#[trigger] h[i]))
        == ProbeStep::Next(stage_at(i + 1)) by {
        if i == h.len() - 1 {
            assert(h[i] == h.last());
        }
    }
    lemma_probe_prefix_of_parts(h, base);
}

proof fn lemma_probe_prefix_of_parts(h: Seq<ReadRecord>, base: int)
    requires
        forall|i: int| #![trigger h[i]] 0 <= i < h.len() ==> h[i].addr == base + stage_at(i).spec_offset()
            && h[i].count == 1,
        forall|i: int|
            0 <= i < h.len() ==> spec_probe_step(stage_at(i), probe_reply_of(#[trigger] h[i]))
                == ProbeStep::Next(stage_at(i + 1)),
    ensures
        probe_prefix(h, base),
{
}

proof fn lemma_next_stage(h: Seq<ReadRecord>, next: ProbeStage)
    requires
        1 <= h.len() <= 3,
        spec_probe_step(stage_at(h.len() - 1), probe_reply_of(h.last())) == ProbeStep::Next(next),
    ensures
        h.len() <= 2,
        next == stage_at(h.len() as int),
{
}

proof fn lemma_probe_run_complete(h: Seq<ReadRecord>, base: int)
    requires
        1 <= h.len() <= 3,
        forall|i: int| #![trigger h[i]] 0 <= i < h.len() ==> h[i].addr == base + stage_at(i).spec_offset()
            && h[i].count == 1,
        forall|i: int|
            0 <= i < h.len() - 1 ==> spec_probe_step(stage_at(i), probe_reply_of(#[trigger] h[i]))
                == ProbeStep::Next(stage_at(i + 1)),
        !(spec_probe_step(stage_at(h.len() - 1), probe_reply_of(h.last())) is Next),
    ensures
        is_probe_run(h, base),
{
}

/// `h` is a complete probe of the slot at `base`: one to three reads of one register at
/// the offset of their stage, each but the last leading on to the next stage, and the
/// last one ending the probe.
pub open spec fn is_probe_run(h: Seq<ReadRecord>, base: int) -> bool {
    &&& 1 <= h.len() <= 3
    &&& forall|i: int| #![trigger h[i]] 0 <= i < h.len() ==> h[i].addr == base + stage_at(i).spec_offset()
        && h[i].count == 1
    &&& forall|i: int|
        0 <= i < h.len() - 1 ==> spec_probe_step(stage_at(i), probe_reply_of(#[trigger] h[i]))
            == ProbeStep::Next(stage_at(i + 1))
    &&& !(spec_probe_step(stage_at(h.len() - 1), probe_reply_of(h.last())) is Next)
}

/// What a complete probe found (`None` when it aborted).
pub open spec fn probe_outcome(h: Seq<ReadRecord>) -> Option<SlotKind> {
    match spec_probe_step(stage_at(h.len() - 1), probe_reply_of(h.last())) {
        ProbeStep::Found(k) => Some(k),
        _ => None,
    }
}

/// The probe's reading of the `i`-th recorded read, or `Failed` past the end of `h` (the
/// probe never looks there).
pub open spec fn reply_at(h: Seq<ReadRecord>, i: int) -> ProbeReply {
    if 0 <= i < h.len() {
        probe_reply_of(h[i])
    } else {
        ProbeReply::Failed
    }
}

/// What a complete probe finds is what the slot layout says of its replies
/// ([`spec_classify_slot`]): a DER AC block for model 701; a meter for a common block whose
/// meter model id is 201 to 204 and whose data register answers; an empty slot otherwise;
/// and an error when a read fails other than the way empty slots fail.
pub proof fn lemma_probe_run_classifies(h: Seq<ReadRecord>, base: int)
    requires
        is_probe_run(h, base),
    ensures
        probe_outcome(h) == spec_classify_slot(reply_at(h, 0), reply_at(h, 1), reply_at(h, 2)),
{
    assert(h.last() == h[h.len() - 1]);
    if h.len() >= 2 {
        assert(spec_probe_step(stage_at(0), probe_reply_of(h[0])) == ProbeStep::Next(stage_at(1)));
    }
    if h.len() == 3 {
        assert(spec_probe_step(stage_at(1), probe_reply_of(h[1])) == ProbeStep::Next(stage_at(2)));
    }
}

/// Whether a failed read means that the slot is unoccupied: a Modbus exception reply,
/// or a read that timed out.
pub fn is_empty_slot_error(kind: ModbusErrorKind) -> (r: bool)
    ensures
        r == is_empty_slot_kind(kind),
{
    match kind {
        ModbusErrorKind::Exception => true,
        ModbusErrorKind::IoWouldBlock => true,
        _ => false,
    }
}

} // verus!
