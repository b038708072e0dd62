use vstd::prelude::*;

verus! {

/// Reflected form of the link layer's CRC-16 polynomial.
pub const CRC_POLY: u16 = 0xA6BC;

/// One bit step of the reflected CRC register.
pub open spec fn crc_shift(c: u16) -> u16 {
    if c & 1 == 1 {
        (c >> 1u16) ^ CRC_POLY
    } else {
        c >> 1u16
    }
}

pub open spec fn crc_shifts(c: u16, n: nat) -> u16
    decreases n,
{
    if n == 0 {
        c
    } else {
        crc_shifts(crc_shift(c), (n - 1) as nat)
    }
}

/// The register after taking in one byte.
pub open spec fn crc_update(c: u16, b: u8) -> u16 {
    crc_shifts(c ^ (b as u16), 8)
}

/// The register after taking in every byte of `s`, from zero.
pub open spec fn crc_register(s: Seq<u8>) -> u16
    decreases s.len(),
{
    if s.len() == 0 {
        0
    } else {
        crc_update(crc_register(s.drop_last()), s.last())
    }
}

/// The link-layer CRC of `s`: the complemented register.
pub open spec fn crc_of(s: Seq<u8>) -> u16 {
    !crc_register(s)
}

fn update(c: u16, b: u8) -> (r: u16)
    ensures
        r == crc_update(c, b),
{
    let mut x: u16 = c ^ (b as u16);
    let mut k: usize = 0;
    while k < 8
        invariant
            k <= 8,
            crc_shifts(x, (8 - k) as nat) == crc_update(c, b),
        decreases 8 - k,
    {
        x = if x & 1 == 1 {
            (x >> 1u16) ^ CRC_POLY
        } else {
            x >> 1u16
        };
        k = k + 1;
    }
    x
}

/// Computes the link-layer CRC of `data`.
pub fn crc(data: &[u8]) -> (r: u16)
    ensures
        r == crc_of(data@),
{
    let mut c: u16 = 0;
    let mut i: usize = 0;
    while i < data.len()
        invariant
            i <= data@.len(),
            c == crc_register(data@.subrange(0, i as int)),
        decreases data@.len() - i,
    {
        proof {
            let next = data@.subrange(0, i as int + 1);
            assert(next.drop_last() =~= data@.subrange(0, i as int));
        }
        c = update(c, data[i]);
        i = i + 1;
    }
    assert(data@.subrange(0, i as int) =~= data@);
    !c
}

} // verus!
