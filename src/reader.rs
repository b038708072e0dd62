use vstd::prelude::*;

use crate::frame::{
    blocks_data, blocks_valid, body_size, copy_range, extract_blocks, header_of, parse_header,
    valid_header, Header, HEADER_SIZE, MIN_LENGTH, START1, START2,
};

verus! {

/// Outcome of looking at the bytes received so far.
#[derive(Debug)]
pub enum ReadStep {
    /// The bytes are a valid beginning of a frame; more must come.
    NeedMore,
    /// The first byte cannot begin a valid frame and is to be dropped.
    Discard,
    /// A whole valid frame: its header, its data bytes, and the bytes it took.
    Frame(Header, Vec<u8>, usize),
}

/// Whether the start bytes received so far are the right ones.
pub open spec fn sync_ok(b: Seq<u8>) -> bool {
    (b.len() < 1 || b[0] == START1) && (b.len() < 2 || b[1] == START2)
}

/// Whether the bytes begin with a whole valid fixed header.
pub open spec fn header_ok(b: Seq<u8>) -> bool {
    b.len() >= HEADER_SIZE && valid_header(b.subrange(0, HEADER_SIZE as int))
}

/// Bytes of the frame whose fixed header begins `b`.
pub open spec fn frame_len(b: Seq<u8>) -> int {
    HEADER_SIZE + body_size(b[2] - MIN_LENGTH)
}

/// Whether the first byte of `b` begins no valid frame.
pub open spec fn scan_discards(b: Seq<u8>) -> bool {
    ||| !sync_ok(b)
    ||| (b.len() >= HEADER_SIZE && !valid_header(b.subrange(0, HEADER_SIZE as int)))
    ||| (header_ok(b) && b.len() >= frame_len(b) && !blocks_valid(
        b.subrange(HEADER_SIZE as int, frame_len(b)),
    ))
}

/// Whether `b` begins with a whole valid frame.
pub open spec fn scan_completes(b: Seq<u8>) -> bool {
    !scan_discards(b) && header_ok(b) && b.len() >= frame_len(b)
}

/// The data bytes of the valid frame that begins `b`.
pub open spec fn frame_data(b: Seq<u8>) -> Seq<u8> {
    blocks_data(b.subrange(HEADER_SIZE as int, frame_len(b)))
}

/// Looks at the bytes received so far for one frame at their start.
pub fn scan(buf: &[u8]) -> (r: ReadStep)
    ensures
        r is Discard <==> scan_discards(buf@),
        r is Frame <==> scan_completes(buf@),
        r matches ReadStep::Frame(h, p, n) ==> h == header_of(buf@.subrange(0, HEADER_SIZE as int)).1
            && n == frame_len(buf@) && p@ == frame_data(buf@),
{
    let len = buf.len();
    if len >= 1 && buf[0] != START1 {
        return ReadStep::Discard;
    }
    if len >= 2 && buf[1] != START2 {
        return ReadStep::Discard;
    }
    if len < HEADER_SIZE {
        return ReadStep::NeedMore;
    }
    let head = copy_range(buf, 0, HEADER_SIZE);
    match parse_header(head.as_slice()) {
        None => ReadStep::Discard,
        Some((length, header)) => {
            assert(head@[2] == buf@[2]);
            let data_len: usize = (length - MIN_LENGTH) as usize;
            let total: usize = HEADER_SIZE + data_len + 2 * ((data_len + 15) / 16);
            if len < total {
                return ReadStep::NeedMore;
            }
            let body = copy_range(buf, HEADER_SIZE, total);
            match extract_blocks(body.as_slice()) {
                None => ReadStep::Discard,
                Some(p) => ReadStep::Frame(header, p, total),
            }
        },
    }
}

/// Whether each of the first `k` bytes of `b` was dropped as beginning no valid frame.
pub open spec fn dropped(b: Seq<u8>, k: int) -> bool {
    &&& 0 <= k <= b.len()
    &&& forall|j: int| 0 <= j < k ==> #[trigger] scan_discards(b.subrange(j, b.len() as int))
}

/// After dropping the first `k` bytes of `b`: nothing more when no whole frame
/// begins there, else the frame that begins there; `fin` is what remains.
pub open spec fn next_frame_taken(
    b: Seq<u8>,
    k: int,
    fin: Seq<u8>,
    r: Option<(Header, Vec<u8>)>,
) -> bool {
    let rest = b.subrange(k, b.len() as int);
    &&& dropped(b, k)
    &&& r is None ==> fin == rest && !scan_discards(rest) && !scan_completes(rest)
    &&& r matches Some((h, p)) ==> scan_completes(rest) && h == header_of(
        rest.subrange(0, HEADER_SIZE as int),
    ).1 && p@ == frame_data(rest) && fin == rest.subrange(frame_len(rest), rest.len() as int)
}

/// Bytes received and not yet taken as frames.
pub struct Reader {
    buffer: Vec<u8>,
}

impl Reader {
    pub closed spec fn pending(&self) -> Seq<u8> {
        self.buffer@
    }

    pub fn new() -> (r: Self)
        ensures
            r.pending() == Seq::<u8>::empty(),
    {
        Reader { buffer: Vec::new() }
    }

    /// Drops any partly received frame.
    pub fn reset(&mut self)
        ensures
            final(self).pending() == Seq::<u8>::empty(),
    {
        self.buffer = Vec::new();
    }

    /// Appends received bytes.
    pub fn push(&mut self, data: &[u8])
        ensures
            final(self).pending() == old(self).pending() + data@,
    {
        let mut i: usize = 0;
        let ghost start = self.buffer@;
        while i < data.len()
            invariant
                i <= data@.len(),
                self.buffer@ == start + data@.subrange(0, i as int),
            decreases data@.len() - i,
        {
            self.buffer.push(data[i]);
            i = i + 1;
            assert(self.buffer@ =~= start + data@.subrange(0, i as int));
        }
        assert(data@.subrange(0, i as int) =~= data@);
    }

    /// Drops bytes that begin no valid frame, then takes the frame at the start,
    /// if a whole one has been received.
    pub fn next_frame(&mut self) -> (r: Option<(Header, Vec<u8>)>)
        ensures
            exists|k: int| next_frame_taken(old(self).pending(), k, final(self).pending(), r),
    {
        let ghost start = self.buffer@;
        let ghost mut k: int = 0;
        assert(start.subrange(0, start.len() as int) =~= start);
        loop
            invariant
                start == old(self).pending(),
                dropped(start, k),
                self.buffer@ == start.subrange(k, start.len() as int),
            decreases self.buffer@.len(),
        {
            let len = self.buffer.len();
            match scan(self.buffer.as_slice()) {
                ReadStep::NeedMore => {
                    assert(next_frame_taken(old(self).pending(), k, self.pending(), None));
                    return None;
                },
                ReadStep::Discard => {
                    let rest = copy_range(self.buffer.as_slice(), 1, len);
                    proof {
                        assert(rest@ =~= start.subrange(k + 1, start.len() as int));
                        assert(scan_discards(start.subrange(k, start.len() as int)));
                        k = k + 1;
                    }
                    self.buffer = rest;
                },
                ReadStep::Frame(h, p, n) => {
                    self.buffer = copy_range(self.buffer.as_slice(), n, len);
                    let r = Some((h, p));
                    assert(next_frame_taken(old(self).pending(), k, self.pending(), r));
                    return r;
                },
            }
        }
    }
}

} // verus!
