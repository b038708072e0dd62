use vstd::prelude::*;

verus! {

/// Mask that keeps the low 56 bits of a millisecond count.
pub const MASK_U48: u64 = 0x00FF_FFFF_FFFF_FFFF;

/// Millisecond count since the Unix epoch, as carried on the wire.
#[derive(Copy, Clone, Debug, PartialEq, Eq, Structural)]
pub struct Timestamp {
    pub value: u64,
}

impl Timestamp {
    pub open spec fn wf(self) -> bool {
        self.value <= MASK_U48
    }

    pub fn new(value: u64) -> (r: Self)
        ensures
            r.value == value & MASK_U48,
            r.wf(),
    {
        let v = value & MASK_U48;
        assert(v <= MASK_U48) by (bit_vector)
            requires v == value & 0x00FF_FFFF_FFFF_FFFFu64;
        Self { value: v }
    }

    pub fn min() -> (r: Self)
        ensures
            r.value == 0,
    {
        let r = Self::new(0u64);
        assert(0u64 & MASK_U48 == 0) by (bit_vector);
        r
    }

    pub fn max() -> (r: Self)
        ensures
            r.value == MASK_U48,
    {
        let r = Self::new(0xFFFF_FFFF_FFFF_FFFFu64);
        assert(0xFFFF_FFFF_FFFF_FFFFu64 & MASK_U48 == MASK_U48) by (bit_vector);
        r
    }
}

/// A binary input value with its flags and time of change.
#[derive(Copy, Clone, Debug, PartialEq, Eq, Structural)]
pub struct Binary {
    pub value: bool,
    pub flags: u8,
    pub time: Timestamp,
}

/// Two-bit state of a double-bit input.
#[derive(Copy, Clone, Debug, PartialEq, Eq, Structural)]
pub enum DoubleBit {
    Intermediate,
    DeterminedOff,
    DeterminedOn,
    Indeterminate,
}

impl DoubleBit {
    /// The variant that a pair of low bits stands for.
    pub open spec fn of_bits(b: u8) -> DoubleBit {
        if b == 0 {
            DoubleBit::Intermediate
        } else if b == 1 {
            DoubleBit::DeterminedOff
        } else if b == 2 {
            DoubleBit::DeterminedOn
        } else {
            DoubleBit::Indeterminate
        }
    }

    /// Decodes the lowest two bits of `x`; every byte decodes.
    pub fn from(x: u8) -> (r: Self)
        ensures
            r == Self::of_bits(x & 3),
            r == Self::of_bits(x % 4),
    {
        assert(x & 3 == x % 4) by (bit_vector);
        match x & 0b0000_0011 {
            0b00 => DoubleBit::Intermediate,
            0b01 => DoubleBit::DeterminedOff,
            0b10 => DoubleBit::DeterminedOn,
            _ => DoubleBit::Indeterminate,
        }
    }
}

/// Trip/close selector of a control relay output block.
#[derive(Copy, Clone, Debug, PartialEq, Eq, Structural)]
pub enum TripCloseCode {
    Nul,
    Close,
    Trip,
    Reserved,
}

impl TripCloseCode {
    pub open spec fn bits(self) -> u8 {
        match self {
            TripCloseCode::Nul => 0,
            TripCloseCode::Close => 1,
            TripCloseCode::Trip => 2,
            TripCloseCode::Reserved => 3,
        }
    }

    /// The code held in the two low bits of `x`.
    pub open spec fn of_bits(x: u8) -> TripCloseCode {
        let b = x % 4;
        if b == 0 {
            TripCloseCode::Nul
        } else if b == 1 {
            TripCloseCode::Close
        } else if b == 2 {
            TripCloseCode::Trip
        } else {
            TripCloseCode::Reserved
        }
    }

    pub fn from(x: u8) -> (r: Self)
        ensures
            r == Self::of_bits(x),
    {
        match x % 4 {
            0 => TripCloseCode::Nul,
            1 => TripCloseCode::Close,
            2 => TripCloseCode::Trip,
            _ => TripCloseCode::Reserved,
        }
    }

    pub fn as_u8(self) -> (r: u8)
        ensures
            r == self.bits(),
    {
        match self {
            TripCloseCode::Nul => 0,
            TripCloseCode::Close => 1,
            TripCloseCode::Trip => 2,
            TripCloseCode::Reserved => 3,
        }
    }
}

/// Operation requested of a control relay output block.
#[derive(Copy, Clone, Debug, PartialEq, Eq, Structural)]
pub enum OpType {
    Nul,
    PulseOn,
    PulseOff,
    LatchOn,
    LatchOff,
    Unknown(u8),
}

impl OpType {
    pub open spec fn bits(self) -> u8 {
        match self {
            OpType::Nul => 0,
            OpType::PulseOn => 1,
            OpType::PulseOff => 2,
            OpType::LatchOn => 3,
            OpType::LatchOff => 4,
            OpType::Unknown(x) => x,
        }
    }

    pub open spec fn of_bits(x: u8) -> OpType {
        if x == 0 {
            OpType::Nul
        } else if x == 1 {
            OpType::PulseOn
        } else if x == 2 {
            OpType::PulseOff
        } else if x == 3 {
            OpType::LatchOn
        } else if x == 4 {
            OpType::LatchOff
        } else {
            OpType::Unknown(x)
        }
    }

    /// Fits the four-bit field and is not a known code written as unknown.
    pub open spec fn wf(self) -> bool {
        match self {
            OpType::Unknown(x) => 4 < x < 16,
            _ => true,
        }
    }

    pub fn from(x: u8) -> (r: Self)
        ensures
            r == Self::of_bits(x),
    {
        match x {
            0 => OpType::Nul,
            1 => OpType::PulseOn,
            2 => OpType::PulseOff,
            3 => OpType::LatchOn,
            4 => OpType::LatchOff,
            _ => OpType::Unknown(x),
        }
    }

    pub fn as_u8(self) -> (r: u8)
        ensures
            r == self.bits(),
    {
        match self {
            OpType::Nul => 0,
            OpType::PulseOn => 1,
            OpType::PulseOff => 2,
            OpType::LatchOn => 3,
            OpType::LatchOff => 4,
            OpType::Unknown(x) => x,
        }
    }
}

pub const TCC_MASK: u8 = 0b1100_0000;
pub const CR_MASK: u8 = 0b0010_0000;
pub const QU_MASK: u8 = 0b0001_0000;
pub const OP_MASK: u8 = 0b0000_1111;

/// Control code byte: bits 7-6 trip/close, bit 5 clear, bit 4 queue, bits 3-0 operation.
#[derive(Copy, Clone, Debug, PartialEq, Eq, Structural)]
pub struct ControlCode {
    pub tcc: TripCloseCode,
    pub clear: bool,
    pub queue: bool,
    pub op_type: OpType,
}

impl ControlCode {
    /// Every field fits its place in the byte.
    pub open spec fn wf(self) -> bool {
        self.op_type.wf()
    }

    /// The fields that a control code byte holds.
    pub open spec fn decode(x: u8) -> ControlCode {
        ControlCode {
            tcc: TripCloseCode::of_bits(x >> 6),
            clear: x & CR_MASK != 0,
            queue: x & QU_MASK != 0,
            op_type: OpType::of_bits(x & OP_MASK),
        }
    }

    /// The byte that packs the fields.
    pub open spec fn encode(self) -> u8 {
        ((self.tcc.bits() << 6u8) | (if self.clear { CR_MASK } else { 0u8 }) | (if self.queue {
            QU_MASK
        } else {
            0u8
        }) | self.op_type.bits()) as u8
    }

    pub fn from(x: u8) -> (r: Self)
        ensures
            r == Self::decode(x),
    {
        assert((x & TCC_MASK) >> 6u8 == x >> 6u8) by (bit_vector);
        Self {
            tcc: TripCloseCode::from((x & TCC_MASK) >> 6),
            clear: x & CR_MASK != 0,
            queue: x & QU_MASK != 0,
            op_type: OpType::from(x & OP_MASK),
        }
    }

    pub fn as_u8(self) -> (r: u8)
        ensures
            r == self.encode(),
    {
        let t: u8 = self.tcc.as_u8() << 6u8;
        let c: u8 = if self.clear { CR_MASK } else { 0u8 };
        let q: u8 = if self.queue { QU_MASK } else { 0u8 };
        t | c | q | self.op_type.as_u8()
    }
}

/// Packing then unpacking a well-formed control code gives it back, and unpacking
/// then packing any byte gives the byte back.
pub proof fn lemma_control_code_round_trip(cc: ControlCode, b: u8)
    requires
        cc.wf(),
    ensures
        ControlCode::decode(cc.encode()) == cc,
        ControlCode::decode(b).encode() == b,
{
    let t = cc.tcc.bits();
    let o = cc.op_type.bits();
    let c: u8 = if cc.clear { CR_MASK } else { 0u8 };
    let q: u8 = if cc.queue { QU_MASK } else { 0u8 };
    let e = cc.encode();
    assert(e == t << 6u8 | c | q | o);
    assert(e >> 6u8 == t && e & 0x20 == c && e & 0x10 == q && e & 0x0F == o) by (bit_vector)
        requires
            t < 4,
            o < 16,
            c == 0 || c == 0x20,
            q == 0 || q == 0x10,
            e == t << 6u8 | c | q | o,
    ;
    assert(c == 0 ==> c & 0x20 == 0) by (bit_vector);
    let d = ControlCode::decode(e);
    assert(d.tcc == cc.tcc);
    assert(d.op_type == cc.op_type);
    assert(d.clear == cc.clear) by {
        assert(0x20u8 != 0);
    }
    assert(d.queue == cc.queue) by {
        assert(0x10u8 != 0);
    }

    let db = ControlCode::decode(b);
    let tb: u8 = b >> 6u8;
    let ob: u8 = b & OP_MASK;
    assert(tb < 4 && ob < 16) by (bit_vector)
        requires
            tb == b >> 6u8,
            ob == b & 0x0Fu8,
    ;
    assert(db.tcc.bits() == tb);
    assert(db.op_type.bits() == ob);
    let cb: u8 = if db.clear { CR_MASK } else { 0u8 };
    let qb: u8 = if db.queue { QU_MASK } else { 0u8 };
    assert(cb == b & 0x20 && qb == b & 0x10) by {
        assert(b & 0x20 == 0 || b & 0x20 == 0x20) by (bit_vector);
        assert(b & 0x10 == 0 || b & 0x10 == 0x10) by (bit_vector);
    }
    assert(tb << 6u8 | (b & 0x20) | (b & 0x10) | ob == b) by (bit_vector)
        requires
            tb == b >> 6u8,
            ob == b & 0x0Fu8,
    ;
}

} // verus!
