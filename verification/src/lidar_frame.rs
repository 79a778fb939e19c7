//! Decoding of a reassembled LiDAR frame into raw 16-bit measurements.
use vstd::prelude::*;

verus! {

/// The big-endian 16-bit value stored at byte offsets `2 * i` and `2 * i + 1`.
pub open spec fn be_u16_at(bytes: Seq<u8>, i: int) -> u16 {
    (bytes[2 * i] as int * 256 + bytes[2 * i + 1] as int) as u16
}

/// The whole buffer read as consecutive big-endian 16-bit values; a trailing
/// odd byte is not part of any value.
pub open spec fn decode_be_u16s(bytes: Seq<u8>) -> Seq<u16> {
    Seq::new(bytes.len() / 2, |i: int| be_u16_at(bytes, i))
}

/// A parsed frame: the raw big-endian 16-bit measurements of the payload.
///
/// The wire data has no header of its own. One logical frame holds
/// `RANGE_COUNT` range values, optionally followed by as many intensities.
pub struct SensFrame {
    pub data: Vec<u16>,
}

impl SensFrame {
    /// Number of range points in a frame (`range_end(810) - range_start(0) + 1`).
    pub const RANGE_COUNT: usize = 811;

    /// Parses raw big-endian `u16` data from a byte buffer.
    ///
    /// A buffer shorter than two bytes gives `None`; otherwise every complete
    /// byte pair becomes one value and a trailing odd byte is dropped.
    pub fn from_buf(buf: &[u8]) -> (res: Option<SensFrame>)
        ensures
            res is None <==> buf@.len() < 2,
            res matches Some(f) ==> f.data@ == decode_be_u16s(buf@),
    {
        if buf.len() < 2 {
            return None;
        }
        let len: usize = buf.len();
        let n: usize = len / 2;
        let mut data: Vec<u16> = Vec::with_capacity(n);
        let mut i: usize = 0;
        while i < n
            invariant
                len == buf@.len(),
                n == len / 2,
                i <= n,
                data@.len() == i,
                forall|k: int| 0 <= k < i ==> data@[k] == be_u16_at(buf@, k),
            decreases n - i,
        {
            let hi: u16 = buf[2 * i] as u16;
            let lo: u16 = buf[2 * i + 1] as u16;
            let value: u16 = hi * 256 + lo;
            data.push(value);
            i = i + 1;
        }
        assert(data@ =~= decode_be_u16s(buf@));
        Some(SensFrame { data })
    }

    /// Total number of data points: the ranges plus, when present, the
    /// intensities (811 for a range-only frame, 1622 with intensities).
    pub fn data_count(&self) -> (r: usize)
        ensures
            r == self.data@.len(),
    {
        self.data.len()
    }

    /// Whether a payload of `total_bytes` bytes carries intensities after the
    /// ranges: it does exactly when it holds `RANGE_COUNT * 4` bytes (each
    /// range and each intensity two bytes).
    pub fn has_intensity(&self, total_bytes: usize) -> (r: bool)
        ensures
            r == (total_bytes == Self::RANGE_COUNT * 4),
    {
        total_bytes == Self::RANGE_COUNT * 4
    }

    /// Range value (mm) at `index`, or 0 past the end of the data.
    pub fn get_range(&self, index: usize) -> (r: u16)
        ensures
            r == if index < self.data@.len() { self.data@[index as int] } else { 0 },
    {
        if index < self.data.len() {
            self.data[index]
        } else {
            0
        }
    }

    /// Intensity at `index`: the value `RANGE_COUNT` places after the range
    /// value of the same index, or 0 past the end of the data.
    pub fn get_intensity(&self, index: usize) -> (r: u16)
        requires
            index + Self::RANGE_COUNT <= usize::MAX,
        ensures
            r == if index + Self::RANGE_COUNT < self.data@.len() {
                self.data@[index + Self::RANGE_COUNT]
            } else {
                0
            },
    {
        let offset = Self::RANGE_COUNT + index;
        if offset < self.data.len() {
            self.data[offset]
        } else {
            0
        }
    }
}

} // verus!
