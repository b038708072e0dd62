use vstd::prelude::*;

use crate::crc::{crc, crc_of};

verus! {

pub const DIR_MASK: u8 = 0b1000_0000;
pub const PRM_MASK: u8 = 0b0100_0000;
pub const FCB_MASK: u8 = 0b0010_0000;
pub const FCV_MASK: u8 = 0b0001_0000;
pub const FUNC_MASK: u8 = 0b0000_1111;

/// Link-layer function: the primary bit together with the four-bit code.
#[derive(Copy, Clone, Debug, PartialEq, Eq, Structural)]
pub enum Function {
    PriResetLinkStates,
    PriTestLinkStates,
    PriConfirmedUserData,
    PriUnconfirmedUserData,
    PriRequestLinkStatus,
    SecAck,
    SecNack,
    SecLinkStatus,
    SecNotSupported,
    /// Any other combination, kept as the primary bit (0x40) and the code.
    Unknown(u8),
}

impl Function {
    /// The function named by the primary bit (0x40) and low four bits of `x`.
    pub open spec fn of_bits(x: u8) -> Function {
        let b = x & (PRM_MASK | FUNC_MASK);
        if b == 0x40 {
            Function::PriResetLinkStates
        } else if b == 0x42 {
            Function::PriTestLinkStates
        } else if b == 0x43 {
            Function::PriConfirmedUserData
        } else if b == 0x44 {
            Function::PriUnconfirmedUserData
        } else if b == 0x49 {
            Function::PriRequestLinkStatus
        } else if b == 0x00 {
            Function::SecAck
        } else if b == 0x01 {
            Function::SecNack
        } else if b == 0x0B {
            Function::SecLinkStatus
        } else if b == 0x0F {
            Function::SecNotSupported
        } else {
            Function::Unknown(b)
        }
    }

    /// The primary bit and code of a function.
    pub open spec fn bits(self) -> u8 {
        match self {
            Function::PriResetLinkStates => 0x40,
            Function::PriTestLinkStates => 0x42,
            Function::PriConfirmedUserData => 0x43,
            Function::PriUnconfirmedUserData => 0x44,
            Function::PriRequestLinkStatus => 0x49,
            Function::SecAck => 0x00,
            Function::SecNack => 0x01,
            Function::SecLinkStatus => 0x0B,
            Function::SecNotSupported => 0x0F,
            Function::Unknown(b) => b & (PRM_MASK | FUNC_MASK),
        }
    }

    pub fn from(x: u8) -> (r: Self)
        ensures
            r == Self::of_bits(x),
    {
        let b = x & (PRM_MASK | FUNC_MASK);
        match b {
            0x40 => Function::PriResetLinkStates,
            0x42 => Function::PriTestLinkStates,
            0x43 => Function::PriConfirmedUserData,
            0x44 => Function::PriUnconfirmedUserData,
            0x49 => Function::PriRequestLinkStatus,
            0x00 => Function::SecAck,
            0x01 => Function::SecNack,
            0x0B => Function::SecLinkStatus,
            0x0F => Function::SecNotSupported,
            _ => Function::Unknown(b),
        }
    }

    pub fn as_u8(self) -> (r: u8)
        ensures
            r == self.bits(),
    {
        match self {
            Function::PriResetLinkStates => 0x40,
            Function::PriTestLinkStates => 0x42,
            Function::PriConfirmedUserData => 0x43,
            Function::PriUnconfirmedUserData => 0x44,
            Function::PriRequestLinkStatus => 0x49,
            Function::SecAck => 0x00,
            Function::SecNack => 0x01,
            Function::SecLinkStatus => 0x0B,
            Function::SecNotSupported => 0x0F,
            Function::Unknown(b) => b & (PRM_MASK | FUNC_MASK),
        }
    }
}

/// Link control byte: direction (set when sent by a master), frame count bit,
/// frame count valid bit, and function.
#[derive(Copy, Clone, Debug, PartialEq, Eq, Structural)]
pub struct ControlField {
    pub master: bool,
    pub fcb: bool,
    pub fcv: bool,
    pub func: Function,
}

impl ControlField {
    pub open spec fn decode(x: u8) -> ControlField {
        ControlField {
            master: x & DIR_MASK != 0,
            fcb: x & FCB_MASK != 0,
            fcv: x & FCV_MASK != 0,
            func: Function::of_bits(x),
        }
    }

    pub open spec fn encode(self) -> u8 {
        ((if self.master { DIR_MASK } else { 0u8 }) | (if self.fcb { FCB_MASK } else { 0u8 }) | (
        if self.fcv {
            FCV_MASK
        } else {
            0u8
        }) | self.func.bits()) as u8
    }

    /// A control field with both frame count bits clear.
    pub fn new(master: bool, func: Function) -> (r: Self)
        ensures
            r == (ControlField { master, fcb: false, fcv: false, func }),
    {
        ControlField { master, fcb: false, fcv: false, func }
    }

    pub fn from(x: u8) -> (r: Self)
        ensures
            r == Self::decode(x),
    {
        ControlField {
            master: x & DIR_MASK != 0,
            fcb: x & FCB_MASK != 0,
            fcv: x & FCV_MASK != 0,
            func: Function::from(x),
        }
    }

    pub fn to_u8(self) -> (r: u8)
        ensures
            r == self.encode(),
    {
        let d: u8 = if self.master { DIR_MASK } else { 0u8 };
        let b: u8 = if self.fcb { FCB_MASK } else { 0u8 };
        let v: u8 = if self.fcv { FCV_MASK } else { 0u8 };
        d | b | v | self.func.as_u8()
    }
}

impl Function {
    /// An unknown function holds only the bits of the function field, and no known code.
    pub open spec fn wf(self) -> bool {
        match self {
            Function::Unknown(b) => b == b & (PRM_MASK | FUNC_MASK) && Function::of_bits(b)
                == Function::Unknown(b),
            _ => true,
        }
    }
}

/// Decoding a control byte and encoding the fields gives the byte back, and
/// encoding well-formed fields and decoding the byte gives the fields back.
pub proof fn lemma_control_field_round_trip(cf: ControlField, x: u8)
    requires
        cf.func.wf(),
    ensures
        ControlField::decode(x).encode() == x,
        ControlField::decode(cf.encode()) == cf,
{
    assert(PRM_MASK | FUNC_MASK == 0x4F) by (bit_vector);
    let fx = x & 0x4F;
    assert(fx & 0x4F == fx) by (bit_vector)
        requires
            fx == x & 0x4F,
    ;
    assert(Function::of_bits(x).bits() == fx);
    let d: u8 = if x & 0x80 != 0 { 0x80u8 } else { 0u8 };
    let b: u8 = if x & 0x20 != 0 { 0x20u8 } else { 0u8 };
    let v: u8 = if x & 0x10 != 0 { 0x10u8 } else { 0u8 };
    assert(d == x & 0x80 && b == x & 0x20 && v == x & 0x10) by {
        assert(x & 0x80 == 0 || x & 0x80 == 0x80) by (bit_vector);
        assert(x & 0x20 == 0 || x & 0x20 == 0x20) by (bit_vector);
        assert(x & 0x10 == 0 || x & 0x10 == 0x10) by (bit_vector);
    }
    assert((x & 0x80) | (x & 0x20) | (x & 0x10) | (x & 0x4F) == x) by (bit_vector);

    let f = cf.func.bits();
    let d2: u8 = if cf.master { 0x80u8 } else { 0u8 };
    let b2: u8 = if cf.fcb { 0x20u8 } else { 0u8 };
    let v2: u8 = if cf.fcv { 0x10u8 } else { 0u8 };
    let e = cf.encode();
    assert(f == f & 0x4F) by {
        assert(0x40u8 & 0x4F == 0x40 && 0x42u8 & 0x4F == 0x42 && 0x43u8 & 0x4F == 0x43 && 0x44u8
            & 0x4F == 0x44 && 0x49u8 & 0x4F == 0x49 && 0u8 & 0x4F == 0 && 1u8 & 0x4F == 1 && 0x0Bu8
            & 0x4F == 0x0B && 0x0Fu8 & 0x4F == 0x0F) by (bit_vector);
        if let Function::Unknown(u) = cf.func {
            assert((u & 0x4F) & 0x4F == u & 0x4F) by (bit_vector);
        }
    }
    assert(e == d2 | b2 | v2 | f);
    assert(e & 0x80 == d2 && e & 0x20 == b2 && e & 0x10 == v2 && e & 0x4F == f) by (bit_vector)
        requires
            d2 == 0 || d2 == 0x80,
            b2 == 0 || b2 == 0x20,
            v2 == 0 || v2 == 0x10,
            f == f & 0x4F,
            e == d2 | b2 | v2 | f,
    ;
    assert(Function::of_bits(e) == cf.func);
}

/// Source and destination link addresses of one frame.
#[derive(Copy, Clone, Debug, PartialEq, Eq, Structural)]
pub struct Address {
    pub source: u16,
    pub destination: u16,
}

/// The decoded fixed header of a link frame.
#[derive(Copy, Clone, Debug, PartialEq, Eq, Structural)]
pub struct Header {
    pub control: ControlField,
    pub address: Address,
}

pub const START1: u8 = 0x05;
pub const START2: u8 = 0x64;
/// Length field of a frame without payload: control byte and both addresses.
pub const MIN_LENGTH: u8 = 5;
/// Bytes of the fixed header, its CRC included.
pub const HEADER_SIZE: usize = 10;

/// Little-endian bytes of a 16-bit value.
pub open spec fn le16(x: u16) -> Seq<u8> {
    seq![(x % 256) as u8, (x / 256) as u8]
}

/// The value of two little-endian bytes.
pub open spec fn from_le16(lo: u8, hi: u8) -> u16 {
    (lo as int + 256 * (hi as int)) as u16
}

/// The fixed header without its CRC.
pub open spec fn header_block(length: u8, control: u8, destination: u16, source: u16) -> Seq<u8> {
    seq![START1, START2, length, control] + le16(destination) + le16(source)
}

/// The fixed header followed by its CRC.
pub open spec fn header_frame(length: u8, control: u8, destination: u16, source: u16) -> Seq<u8> {
    let b = header_block(length, control, destination, source);
    b + le16(crc_of(b))
}

/// Whether ten bytes form a valid fixed header: start bytes, a length that
/// covers the header fields, and a matching CRC.
pub open spec fn valid_header(f: Seq<u8>) -> bool {
    &&& f.len() == HEADER_SIZE
    &&& f[0] == START1
    &&& f[1] == START2
    &&& f[2] >= MIN_LENGTH
    &&& crc_of(f.subrange(0, 8)) == from_le16(f[8], f[9])
}

/// The length field and header that a valid fixed header holds.
pub open spec fn header_of(f: Seq<u8>) -> (u8, Header) {
    (
        f[2],
        Header {
            control: ControlField::decode(f[3]),
            address: Address { destination: from_le16(f[4], f[5]), source: from_le16(f[6], f[7]) },
        },
    )
}

pub(crate) fn push_le16(out: &mut Vec<u8>, x: u16)
    ensures
        final(out)@ == old(out)@ + le16(x),
{
    out.push((x % 256) as u8);
    out.push((x / 256) as u8);
    assert(final(out)@ =~= old(out)@ + le16(x));
}

fn read_le16(lo: u8, hi: u8) -> (r: u16)
    ensures
        r == from_le16(lo, hi),
{
    (lo as u16) + 256 * (hi as u16)
}

/// Writes a frame that carries no payload: the fixed header and its CRC.
pub fn format_header_only(control: ControlField, destination: u16, source: u16) -> (r: Vec<u8>)
    ensures
        r@ == header_frame(MIN_LENGTH, control.encode(), destination, source),
{
    let mut out: Vec<u8> = Vec::new();
    out.push(START1);
    out.push(START2);
    out.push(MIN_LENGTH);
    out.push(control.to_u8());
    push_le16(&mut out, destination);
    push_le16(&mut out, source);
    let b = Ghost(header_block(MIN_LENGTH, control.encode(), destination, source));
    assert(out@ =~= b@);
    let c = crc(out.as_slice());
    push_le16(&mut out, c);
    out
}

/// Reads a fixed header; `None` when the bytes are not a valid one.
pub fn parse_header(frame: &[u8]) -> (r: Option<(u8, Header)>)
    ensures
        r is Some <==> valid_header(frame@),
        r is Some ==> r == Some(header_of(frame@)),
{
    if frame.len() != HEADER_SIZE || frame[0] != START1 || frame[1] != START2 || frame[2]
        < MIN_LENGTH {
        return None;
    }
    let block = copy_range(frame, 0, 8);
    if crc(block.as_slice()) != read_le16(frame[8], frame[9]) {
        return None;
    }
    Some(
        (
            frame[2],
            Header {
                control: ControlField::from(frame[3]),
                address: Address {
                    destination: read_le16(frame[4], frame[5]),
                    source: read_le16(frame[6], frame[7]),
                },
            },
        ),
    )
}

/// A fixed header as formatted is valid, and reads back as the control byte
/// and addresses that were written.
pub proof fn lemma_header_frame_parses(control: u8, destination: u16, source: u16)
    ensures
        valid_header(header_frame(MIN_LENGTH, control, destination, source)),
        header_of(header_frame(MIN_LENGTH, control, destination, source)) == (
            MIN_LENGTH,
            Header {
                control: ControlField::decode(control),
                address: Address { destination, source },
            },
        ),
{
    let b = header_block(MIN_LENGTH, control, destination, source);
    let f = header_frame(MIN_LENGTH, control, destination, source);
    assert(f.subrange(0, 8) =~= b);
    let c = crc_of(b);
    assert(from_le16((c % 256) as u8, (c / 256) as u8) == c);
    assert(from_le16((destination % 256) as u8, (destination / 256) as u8) == destination);
    assert(from_le16((source % 256) as u8, (source / 256) as u8) == source);
}

/// Copies `s[start..end]`.
pub(crate) fn copy_range(s: &[u8], start: usize, end: usize) -> (r: Vec<u8>)
    requires
        start <= end <= s@.len(),
    ensures
        r@ == s@.subrange(start as int, end as int),
{
    let mut r: Vec<u8> = Vec::new();
    let mut i: usize = start;
    while i < end
        invariant
            start <= i <= end <= s@.len(),
            r@ == s@.subrange(start as int, i as int),
        decreases end - i,
    {
        r.push(s[i]);
        i = i + 1;
        assert(r@ =~= s@.subrange(start as int, i as int));
    }
    r
}

/// Most data bytes in one CRC-terminated block of the frame body.
pub const BLOCK_SIZE: usize = 16;

/// Data bytes of the first block of a body of `len` bytes.
pub open spec fn first_block_len(len: int) -> int {
    if len - 2 < BLOCK_SIZE {
        len - 2
    } else {
        BLOCK_SIZE as int
    }
}

/// Whether `body` is a run of blocks, each of data bytes followed by their CRC,
/// all full but the last.
pub open spec fn blocks_valid(body: Seq<u8>) -> bool
    decreases body.len(),
{
    if body.len() == 0 {
        true
    } else if body.len() <= 2 {
        false
    } else {
        let n = first_block_len(body.len() as int);
        crc_of(body.subrange(0, n)) == from_le16(body[n], body[n + 1]) && blocks_valid(
            body.subrange(n + 2, body.len() as int),
        )
    }
}

/// The data bytes of a run of blocks, without their CRCs.
pub open spec fn blocks_data(body: Seq<u8>) -> Seq<u8>
    decreases body.len(),
{
    if body.len() <= 2 {
        seq![]
    } else {
        let n = first_block_len(body.len() as int);
        body.subrange(0, n) + blocks_data(body.subrange(n + 2, body.len() as int))
    }
}

/// Bytes of a body that carries `n` data bytes.
pub open spec fn body_size(n: int) -> int {
    n + 2 * ((n + 15) / 16)
}

/// Checks every block's CRC and gathers the data bytes.
pub fn extract_blocks(body: &[u8]) -> (r: Option<Vec<u8>>)
    ensures
        r is Some <==> blocks_valid(body@),
        r matches Some(v) ==> v@ == blocks_data(body@),
{
    let len = body.len();
    let mut data: Vec<u8> = Vec::new();
    let mut pos: usize = 0;
    assert(body@.subrange(0, len as int) =~= body@);
    assert(data@ + blocks_data(body@) =~= blocks_data(body@));
    while pos < len
        invariant
            len == body@.len(),
            pos <= len,
            blocks_valid(body@) == blocks_valid(body@.subrange(pos as int, len as int)),
            blocks_data(body@) == data@ + blocks_data(body@.subrange(pos as int, len as int)),
        decreases len - pos,
    {
        let rest = Ghost(body@.subrange(pos as int, len as int));
        if len - pos <= 2 {
            return None;
        }
        let n: usize = if len - pos - 2 < BLOCK_SIZE {
            len - pos - 2
        } else {
            BLOCK_SIZE
        };
        let block = copy_range(body, pos, pos + n);
        proof {
            assert(rest@.subrange(0, n as int) =~= block@);
            assert(rest@.subrange(n + 2, rest@.len() as int) =~= body@.subrange(
                (pos + n + 2) as int,
                len as int,
            ));
        }
        if crc(block.as_slice()) != read_le16(body[pos + n], body[pos + n + 1]) {
            return None;
        }
        let ghost old_data = data@;
        data.append(&mut copy_range(body, pos, pos + n));
        assert(data@ =~= old_data + rest@.subrange(0, n as int));
        pos = pos + n + 2;
    }
    assert(body@.subrange(pos as int, len as int) =~= Seq::<u8>::empty());
    assert(data@ =~= data@ + Seq::<u8>::empty());
    Some(data)
}

} // verus!
