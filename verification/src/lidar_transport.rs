//! Reassembly of the LiDAR's UDP datagrams into whole frames.
//!
//! The scanner splits each frame into 2 to 4 sub-packets. Every datagram
//! carries a header (magic, length, checksum, frame index, sub-packet count
//! and index) followed by its share of the payload. `LidarTransport` keeps the
//! sub-packets received so far and hands out the joined payload once every
//! sub-packet of a frame is in. Sending and receiving datagrams is left to the
//! caller: the transport only decides what a received datagram means.
use vstd::prelude::*;
use vstd::arithmetic::div_mod::{lemma_fundamental_div_mod, lemma_mod_multiples_basic, lemma_mod_pos_bound};
use crate::lidar_constants::{
    CMD_FRAME_MAX_LEN, CMD_FRAME_MAX_SUB_PKG_NUM, CMD_FRAME_MIN_SUB_PKG_NUM, FRAME_LENGTH, HDR_CHECKSUM,
    HDR_DATA_START, HDR_LENGTH_H, HDR_LENGTH_L, HDR_SUB_INDEX, HDR_SUB_PKG_NUM, HDR_TOTAL_IDX_H,
    HDR_TOTAL_IDX_L, HDR_TYPE,
};

verus! {

// ── Abstract state ───────────────────────────────────────────────────────

/// A stored sub-packet, as the reassembly logic sees it.
pub struct SubPacketView {
    pub total_index: u32,
    pub sub_pkg_num: u8,
    pub sub_pkg_index: u8,
    pub data: Seq<u8>,
}

/// The state of a transport: its configuration, the four sub-packet slots,
/// the index of the last completed frame, the count of completed frames of
/// valid length, and the skip setting.
pub struct TransportView {
    pub remote_addr: Seq<char>,
    pub port: u16,
    pub timeout_secs: u32,
    pub slots: Seq<Option<SubPacketView>>,
    pub last_frame_total_index: u32,
    pub iteration_count: u64,
    pub skip: u32,
}

/// Four empty sub-packet slots.
pub open spec fn empty_slots() -> Seq<Option<SubPacketView>> {
    seq![None, None, None, None]
}

/// Slot invariant: four slots, each stored sub-packet sits in the slot of its
/// own index and holds at most one datagram's worth of payload.
pub open spec fn slots_wf(slots: Seq<Option<SubPacketView>>) -> bool {
    &&& slots.len() == CMD_FRAME_MAX_SUB_PKG_NUM
    &&& forall|k: int|
        0 <= k < slots.len() ==> (#[trigger] slots[k] matches Some(p) ==> p.sub_pkg_index == k
            && p.data.len() <= CMD_FRAME_MAX_LEN - HDR_DATA_START)
}

// ── Datagram fields ──────────────────────────────────────────────────────

/// Byte `i` of the receive buffer after `d` was received into it: the buffer
/// is zeroed, so bytes past the datagram read as 0.
pub open spec fn byte_at(d: Seq<u8>, i: int) -> u8 {
    if 0 <= i < d.len() {
        d[i]
    } else {
        0
    }
}

/// The datagram starts with the frame header `FA 5A A5 AA`.
pub open spec fn header_ok(d: Seq<u8>) -> bool {
    &&& byte_at(d, 0) == 0xFA
    &&& byte_at(d, 1) == 0x5A
    &&& byte_at(d, 2) == 0xA5
    &&& byte_at(d, 3) == 0xAA
}

/// The big-endian length field (bytes 4 and 5).
pub open spec fn length_field(d: Seq<u8>) -> int {
    byte_at(d, HDR_LENGTH_H as int) as int * 256 + byte_at(d, HDR_LENGTH_L as int) as int
}

/// Payload length announced by the header: the length field minus the six
/// header bytes it counts, saturating at 0.
pub open spec fn payload_len(d: Seq<u8>) -> int {
    if length_field(d) >= 6 {
        length_field(d) - 6
    } else {
        0
    }
}

/// The big-endian frame index (bytes 8 and 9).
pub open spec fn frame_index(d: Seq<u8>) -> u32 {
    (byte_at(d, HDR_TOTAL_IDX_H as int) as int * 256 + byte_at(d, HDR_TOTAL_IDX_L as int) as int) as u32
}

/// Number of sub-packets the frame is split into (byte 10).
pub open spec fn sub_count(d: Seq<u8>) -> u8 {
    byte_at(d, HDR_SUB_PKG_NUM as int)
}

/// Index of this sub-packet within its frame (byte 11).
pub open spec fn sub_index(d: Seq<u8>) -> u8 {
    byte_at(d, HDR_SUB_INDEX as int)
}

/// Sum of a byte sequence.
pub open spec fn byte_sum(s: Seq<u8>) -> int
    decreases s.len(),
{
    if s.len() == 0 {
        0
    } else {
        byte_sum(s.drop_last()) + s.last() as int
    }
}

/// The checksum byte (byte 6) equals the sum modulo 256 of the bytes from the
/// type byte (byte 7) through the end of the announced payload.
pub open spec fn checksum_ok(d: Seq<u8>) -> bool {
    byte_sum(Seq::new((payload_len(d) + 5) as nat, |i: int| byte_at(d, HDR_TYPE + i))) % 256
        == byte_at(d, HDR_CHECKSUM as int) as int
}

/// The datagram is exactly header plus announced payload, and no longer than
/// `CMD_FRAME_MAX_LEN`.
pub open spec fn length_ok(d: Seq<u8>) -> bool {
    &&& d.len() == payload_len(d) + HDR_DATA_START
    &&& d.len() <= CMD_FRAME_MAX_LEN
}

/// The sub-packet count is between 2 and 4 and the index below 4.
pub open spec fn sub_fields_ok(d: Seq<u8>) -> bool {
    &&& CMD_FRAME_MIN_SUB_PKG_NUM <= sub_count(d) <= CMD_FRAME_MAX_SUB_PKG_NUM
    &&& (sub_index(d) as int) < CMD_FRAME_MAX_SUB_PKG_NUM
}

/// A datagram that reassembly stores: right header, checksum, length and
/// sub-packet fields.
pub open spec fn accepted(d: Seq<u8>) -> bool {
    &&& header_ok(d)
    &&& checksum_ok(d)
    &&& length_ok(d)
    &&& sub_fields_ok(d)
}

/// The payload of a datagram.
pub open spec fn payload(d: Seq<u8>) -> Seq<u8> {
    d.subrange(HDR_DATA_START as int, HDR_DATA_START + payload_len(d))
}

/// The sub-packet a datagram stores.
pub open spec fn packet_of(d: Seq<u8>) -> SubPacketView {
    SubPacketView {
        total_index: frame_index(d),
        sub_pkg_num: sub_count(d),
        sub_pkg_index: sub_index(d),
        data: payload(d),
    }
}

// ── Reassembly ───────────────────────────────────────────────────────────

/// Slots `0..n` all hold sub-packets of frame `fidx`, each with the index
/// after that of the slot before it.
pub open spec fn all_received(slots: Seq<Option<SubPacketView>>, n: int, fidx: u32) -> bool {
    forall|k: int|
        0 <= k < n ==> {
            &&& #[trigger] slots[k] is Some
            &&& slots[k]->0.total_index == fidx
            &&& (k > 0 && slots[k - 1] is Some) ==> slots[k - 1]->0.sub_pkg_index + 1
                == slots[k]->0.sub_pkg_index
        }
}

/// The payload held by a slot (empty for an empty slot).
pub open spec fn slot_data(slot: Option<SubPacketView>) -> Seq<u8> {
    match slot {
        Some(p) => p.data,
        None => Seq::empty(),
    }
}

/// The payloads of slots `0..n`, joined in slot order.
pub open spec fn joined(slots: Seq<Option<SubPacketView>>, n: int) -> Seq<u8>
    decreases n,
{
    if n <= 0 {
        Seq::empty()
    } else {
        joined(slots, n - 1) + slot_data(slots[n - 1])
    }
}

/// With skip setting `skip`, whether the `it`-th counted frame is dropped:
/// with `skip > 0`, every `(skip + 1)`-th frame is.
pub open spec fn skip_drops(skip: u32, it: int) -> bool {
    skip > 0 && it % (skip as int + 1) == 0
}

/// A joined payload of whole frames: at least one, and a multiple of
/// `FRAME_LENGTH` bytes.
pub open spec fn frame_length_ok(len: int) -> bool {
    len >= FRAME_LENGTH && len % (FRAME_LENGTH as int) == 0
}

/// What one received datagram does to the transport, and the frame payload it
/// completes, if any.
///
/// A datagram that is not `accepted` changes nothing. An accepted one is
/// stored in the slot of its index; if slots `0..count` then hold the whole
/// frame, the payloads are joined, the slots are emptied and the frame index
/// is remembered. A joined payload of whole frames counts as one iteration,
/// and is handed out unless the skip setting drops it: with skip `N > 0`, one
/// frame in every `N + 1` is dropped (the `N + 1`-th, `2N + 2`-th, ...).
pub open spec fn spec_step(s: TransportView, d: Seq<u8>) -> (TransportView, Option<Seq<u8>>) {
    if !accepted(d) {
        (s, None)
    } else {
        let slots1 = s.slots.update(sub_index(d) as int, Some(packet_of(d)));
        let n = sub_count(d) as int;
        let fidx = frame_index(d);
        if !all_received(slots1, n, fidx) {
            (TransportView { slots: slots1, ..s }, None)
        } else {
            let out = joined(slots1, n);
            let cleared = TransportView {
                slots: empty_slots(),
                last_frame_total_index: fidx,
                ..s
            };
            if !frame_length_ok(out.len() as int) {
                (cleared, None)
            } else {
                let it = (s.iteration_count + 1) as u64;
                let counted = TransportView { iteration_count: it, ..cleared };
                if skip_drops(s.skip, it as int) {
                    (counted, None)
                } else {
                    (counted, Some(out))
                }
            }
        }
    }
}

/// The bytes of an optional buffer.
pub open spec fn opt_bytes(o: Option<Vec<u8>>) -> Option<Seq<u8>> {
    match o {
        Some(v) => Some(v@),
        None => None,
    }
}

// ── Executable state ─────────────────────────────────────────────────────

struct SubPacket {
    total_index: u32,
    sub_pkg_num: u8,
    sub_pkg_index: u8,
    raw_data_len: usize,
    sens_data: Vec<u8>,
}

spec fn slot_view(o: Option<SubPacket>) -> Option<SubPacketView> {
    match o {
        Some(p) => Some(
            SubPacketView {
                total_index: p.total_index,
                sub_pkg_num: p.sub_pkg_num,
                sub_pkg_index: p.sub_pkg_index,
                data: p.sens_data@,
            },
        ),
        None => None,
    }
}

/// Reassembly state of the UDP link to one LiDAR.
pub struct LidarTransport {
    remote_addr: String,
    port: u16,
    timeout_secs: u32,
    /// Sub-packets of the frame being reassembled, by sub-packet index.
    sub_packets: Vec<Option<SubPacket>>,
    /// Index of the last completed frame.
    last_frame_total_index: u32,
    /// Number of completed frames of valid length (drives the skip logic).
    iteration_count: u64,
    /// Drop one frame in every `skip + 1` (0 = drop none).
    skip: u32,
}

impl View for LidarTransport {
    type V = TransportView;

    closed spec fn view(&self) -> TransportView {
        TransportView {
            remote_addr: self.remote_addr@,
            port: self.port,
            timeout_secs: self.timeout_secs,
            slots: self.sub_packets@.map_values(|o: Option<SubPacket>| slot_view(o)),
            last_frame_total_index: self.last_frame_total_index,
            iteration_count: self.iteration_count,
            skip: self.skip,
        }
    }
}

/// Byte `i` of a zeroed receive buffer holding `d`.
fn byte_or_zero(d: &[u8], i: usize) -> (r: u8)
    ensures
        r == byte_at(d@, i as int),
{
    if i < d.len() {
        d[i]
    } else {
        0
    }
}

impl LidarTransport {
    /// Well-formedness: four slots, each stored sub-packet in the slot of its
    /// own index, with its recorded length equal to its payload's.
    pub closed spec fn wf(&self) -> bool {
        &&& self.sub_packets@.len() == CMD_FRAME_MAX_SUB_PKG_NUM
        &&& forall|k: int|
            0 <= k < self.sub_packets@.len() ==> (#[trigger] self.sub_packets@[k] matches Some(p)
                ==> p.raw_data_len == p.sens_data@.len())
        &&& slots_wf(self@.slots)
    }

    /// A well-formed transport has four slots, and each stored sub-packet
    /// sits in the slot of its own index.
    pub proof fn lemma_wf_slots(&self)
        requires
            self.wf(),
        ensures
            slots_wf(self@.slots),
            self@.slots.len() == CMD_FRAME_MAX_SUB_PKG_NUM,
    {
    }

    /// A transport for the scanner at `host:port`, with empty slots, no
    /// frame seen yet (last index `0xFFFFFFFF`), no iteration and no skip.
    pub fn new(host: &str, port: u16, timeout_secs: u32) -> (t: Self)
        ensures
            t.wf(),
            t@ == (TransportView {
                remote_addr: host@,
                port,
                timeout_secs,
                slots: empty_slots(),
                last_frame_total_index: 0xFFFF_FFFF,
                iteration_count: 0,
                skip: 0,
            }),
    {
        let t = LidarTransport {
            remote_addr: host.to_owned(),
            port,
            timeout_secs,
            sub_packets: vec![None, None, None, None],
            last_frame_total_index: 0xFFFF_FFFF,
            iteration_count: 0,
            skip: 0,
        };
        assert(t@.slots =~= empty_slots());
        t
    }

    /// Sets the skip setting.
    pub fn set_skip(&mut self, skip: u32)
        requires
            old(self).wf(),
        ensures
            final(self).wf(),
            final(self)@ == (TransportView { skip, ..old(self)@ }),
    {
        self.skip = skip;
    }

    /// Resets the frame tracking for a fresh link: no frame seen yet and no
    /// iteration. Stored sub-packets stay.
    pub fn connect(&mut self)
        requires
            old(self).wf(),
        ensures
            final(self).wf(),
            final(self)@ == (TransportView {
                last_frame_total_index: 0xFFFF_FFFF,
                iteration_count: 0,
                ..old(self)@
            }),
    {
        self.last_frame_total_index = 0xFFFF_FFFF;
        self.iteration_count = 0;
    }

    /// Drops every stored sub-packet (the link is closed).
    pub fn disconnect(&mut self)
        requires
            old(self).wf(),
        ensures
            final(self).wf(),
            final(self)@ == (TransportView { slots: empty_slots(), ..old(self)@ }),
    {
        self.sub_packets = vec![None, None, None, None];
        assert(self@.slots =~= empty_slots());
    }

    /// Host name of the scanner.
    pub fn remote_addr(&self) -> (r: &str)
        ensures
            r@ == self@.remote_addr,
    {
        self.remote_addr.as_str()
    }

    /// UDP port of the scanner.
    pub fn port(&self) -> (r: u16)
        ensures
            r == self@.port,
    {
        self.port
    }

    /// Receive timeout in seconds.
    pub fn timeout_secs(&self) -> (r: u32)
        ensures
            r == self@.timeout_secs,
    {
        self.timeout_secs
    }

    /// Number of completed frames of valid length since the last `connect`.
    pub fn iteration_count(&self) -> (r: u64)
        ensures
            r == self@.iteration_count,
    {
        self.iteration_count
    }

    /// Whether slots `0..n` hold every sub-packet of frame `fidx`.
    fn frame_complete(&self, n: usize, fidx: u32) -> (r: bool)
        requires
            self.wf(),
            n <= CMD_FRAME_MAX_SUB_PKG_NUM,
        ensures
            r == all_received(self@.slots, n as int, fidx),
    {
        let ghost slots = self@.slots;
        let mut all_in = true;
        let mut k: usize = 0;
        while k < n && all_in
            invariant
                k <= n,
                n <= CMD_FRAME_MAX_SUB_PKG_NUM,
                self.wf(),
                self@.slots == slots,
                all_in ==> all_received(slots, k as int, fidx),
                !all_in ==> !all_received(slots, n as int, fidx),
            decreases n - k,
        {
            assert(slots[k as int] == slot_view(self.sub_packets@[k as int]));
            match &self.sub_packets[k] {
                Some(sp) => {
                    if sp.total_index != fidx {
                        all_in = false;
                    } else if k > 0 {
                        assert(slots[k - 1] == slot_view(self.sub_packets@[k - 1]));
                        match &self.sub_packets[k - 1] {
                            Some(prev) => {
                                assert(slots_wf(slots) && slots[k - 1] is Some);
                                if prev.sub_pkg_index + 1 != sp.sub_pkg_index {
                                    all_in = false;
                                }
                            },
                            None => {},
                        }
                    }
                },
                None => {
                    all_in = false;
                },
            }
            if all_in {
                k = k + 1;
            } else {
                k = n;
            }
        }
        all_in
    }

    /// The payloads of slots `0..n`, joined in slot order.
    fn join_slots(&self, n: usize) -> (out: Vec<u8>)
        requires
            self.wf(),
            n <= CMD_FRAME_MAX_SUB_PKG_NUM,
        ensures
            out@ == joined(self@.slots, n as int),
    {
        let ghost slots = self@.slots;
        let mut out: Vec<u8> = Vec::new();
        let mut m: usize = 0;
        while m < n
            invariant
                m <= n,
                n <= CMD_FRAME_MAX_SUB_PKG_NUM,
                self.wf(),
                self@.slots == slots,
                out@ == joined(slots, m as int),
                out@.len() <= 1488 * m,
            decreases n - m,
        {
            assert(slots[m as int] == slot_view(self.sub_packets@[m as int]));
            match &self.sub_packets[m] {
                Some(sp) => {
                    assert(slots_wf(slots) && slots[m as int] is Some);
                    assert(sp.sens_data@.len() <= 1488);
                    let ghost before = out@;
                    out.extend_from_slice(sp.sens_data.as_slice());
                    assert(out@ =~= before + sp.sens_data@);
                },
                None => {},
            }
            m = m + 1;
        }
        out
    }

    /// Handles one received datagram (the bytes the receive call returned)
    /// and returns the reassembled frame payload when this datagram completes
    /// a frame that is handed out. See `spec_step` for the exact behaviour.
    pub fn read_and_reassemble(&mut self, datagram: &[u8]) -> (res: Option<Vec<u8>>)
        requires
            old(self).wf(),
            old(self)@.iteration_count < u64::MAX,
        ensures
            final(self).wf(),
            (final(self)@, opt_bytes(res)) == spec_step(old(self)@, datagram@),
    {
        let ghost d = datagram@;
        let header = match check_datagram(datagram) {
            Some(h) => h,
            None => {
                return None;
            },
        };
        let sens_data = copy_payload(datagram);

        // Store the sub-packet in the slot of its index
        let ghost s0 = self@;
        let sub_idx = header.sub_pkg_index as usize;
        self.sub_packets.set(
            sub_idx,
            Some(
                SubPacket {
                    total_index: header.frame_total_index,
                    sub_pkg_num: header.sub_pkg_num,
                    sub_pkg_index: header.sub_pkg_index,
                    raw_data_len: header.raw_data_len,
                    sens_data,
                },
            ),
        );
        let ghost slots1 = s0.slots.update(sub_index(d) as int, Some(packet_of(d)));
        assert(self@.slots =~= slots1);

        // Wait for the rest of the frame
        let n = header.sub_pkg_num as usize;
        if !self.frame_complete(n, header.frame_total_index) {
            return None;
        }
        let out = self.join_slots(n);

        // Frame done: remember its index and empty the slots
        self.last_frame_total_index = header.frame_total_index;
        self.sub_packets = vec![None, None, None, None];
        assert(self@.slots =~= empty_slots());

        // Only whole frames are handed out
        let total = out.len();
        if total < FRAME_LENGTH || total % FRAME_LENGTH != 0 {
            return None;
        }

        // Skip logic
        self.iteration_count = self.iteration_count + 1;
        if self.skip > 0 && self.iteration_count % (self.skip as u64 + 1) == 0 {
            return None;
        }
        Some(out)
    }
}

/// The header fields of an accepted datagram.
struct DatagramHeader {
    raw_data_len: usize,
    frame_total_index: u32,
    sub_pkg_num: u8,
    sub_pkg_index: u8,
}

/// Checks header, length, checksum and sub-packet fields of a datagram and
/// returns its header fields when it is accepted.
fn check_datagram(datagram: &[u8]) -> (r: Option<DatagramHeader>)
    ensures
        r is Some <==> accepted(datagram@),
        r matches Some(h) ==> {
            &&& h.raw_data_len == payload_len(datagram@)
            &&& h.frame_total_index == frame_index(datagram@)
            &&& h.sub_pkg_num == sub_count(datagram@)
            &&& h.sub_pkg_index == sub_index(datagram@)
        },
{
    let ghost d = datagram@;
    let len = datagram.len();

    // Frame header
    if byte_or_zero(datagram, 0) != 0xFA || byte_or_zero(datagram, 1) != 0x5A || byte_or_zero(
        datagram,
        2,
    ) != 0xA5 || byte_or_zero(datagram, 3) != 0xAA {
        return None;
    }

    // Header fields
    let length_field: usize = byte_or_zero(datagram, HDR_LENGTH_H) as usize * 256 + byte_or_zero(
        datagram,
        HDR_LENGTH_L,
    ) as usize;
    let raw_data_len: usize = if length_field >= 6 {
        length_field - 6
    } else {
        0
    };
    let frame_total_index: u32 = byte_or_zero(datagram, HDR_TOTAL_IDX_H) as u32 * 256
        + byte_or_zero(datagram, HDR_TOTAL_IDX_L) as u32;
    let sub_pkg_num: u8 = byte_or_zero(datagram, HDR_SUB_PKG_NUM);
    let sub_pkg_index: u8 = byte_or_zero(datagram, HDR_SUB_INDEX);

    // Datagram length
    if len != raw_data_len + HDR_DATA_START || len > CMD_FRAME_MAX_LEN {
        return None;
    }

    // Checksum of the bytes from HDR_TYPE to the end
    let mut sum: u32 = 0;
    let mut i: usize = HDR_TYPE;
    while i < len
        invariant
            HDR_TYPE <= i <= len,
            len == d.len(),
            len <= CMD_FRAME_MAX_LEN,
            d == datagram@,
            sum as int == byte_sum(d.subrange(HDR_TYPE as int, i as int)),
            sum <= 255 * (i - HDR_TYPE),
        decreases len - i,
    {
        assert(d.subrange(HDR_TYPE as int, i + 1).drop_last() =~= d.subrange(
            HDR_TYPE as int,
            i as int,
        ));
        sum = sum + datagram[i] as u32;
        i = i + 1;
    }
    assert(Seq::new((payload_len(d) + 5) as nat, |k: int| byte_at(d, HDR_TYPE + k)) =~= d.subrange(
        HDR_TYPE as int,
        len as int,
    ));
    if (sum % 256) as u8 != datagram[HDR_CHECKSUM] {
        return None;
    }

    // Sub-packet fields
    if sub_pkg_num > CMD_FRAME_MAX_SUB_PKG_NUM as u8 || sub_pkg_num < CMD_FRAME_MIN_SUB_PKG_NUM as u8
        || sub_pkg_index as usize >= CMD_FRAME_MAX_SUB_PKG_NUM {
        return None;
    }
    Some(DatagramHeader { raw_data_len, frame_total_index, sub_pkg_num, sub_pkg_index })
}

/// The payload of a datagram of the right length.
fn copy_payload(datagram: &[u8]) -> (out: Vec<u8>)
    requires
        length_ok(datagram@),
    ensures
        out@ == payload(datagram@),
{
    let ghost d = datagram@;
    let len = datagram.len();
    let mut out: Vec<u8> = Vec::new();
    let mut j: usize = HDR_DATA_START;
    while j < len
        invariant
            HDR_DATA_START <= j <= len,
            len == d.len(),
            d == datagram@,
            out@ == d.subrange(HDR_DATA_START as int, j as int),
        decreases len - j,
    {
        out.push(datagram[j]);
        j = j + 1;
    }
    out
}

// ── Laws ─────────────────────────────────────────────────────────────────

/// The state after receiving the datagrams `ds` in order.
pub open spec fn feed(s: TransportView, ds: Seq<Seq<u8>>) -> TransportView
    decreases ds.len(),
{
    if ds.len() == 0 {
        s
    } else {
        spec_step(feed(s, ds.drop_last()), ds.last()).0
    }
}

/// The payloads of the datagrams `ds`, joined in order.
pub open spec fn concat_payloads(ds: Seq<Seq<u8>>) -> Seq<u8>
    decreases ds.len(),
{
    if ds.len() == 0 {
        Seq::empty()
    } else {
        concat_payloads(ds.drop_last()) + payload(ds.last())
    }
}

/// `ds` are the sub-packets of one frame, sent in order: 2 to 4 accepted
/// datagrams, the `i`-th with sub-packet index `i`, all announcing the count
/// `ds.len()` and the same frame index.
pub open spec fn one_frame_in_order(ds: Seq<Seq<u8>>) -> bool {
    &&& CMD_FRAME_MIN_SUB_PKG_NUM <= ds.len() <= CMD_FRAME_MAX_SUB_PKG_NUM
    &&& forall|i: int|
        0 <= i < ds.len() ==> {
            &&& accepted(#[trigger] ds[i])
            &&& sub_index(ds[i]) == i
            &&& sub_count(ds[i]) == ds.len()
            &&& frame_index(ds[i]) == frame_index(ds[0])
        }
}

/// Slots `0..k` holding the sub-packets of `ds[0..k]`, the rest empty.
pub open spec fn filled(ds: Seq<Seq<u8>>, k: int) -> Seq<Option<SubPacketView>> {
    Seq::new(
        CMD_FRAME_MAX_SUB_PKG_NUM as nat,
        |j: int|
            if j < k {
                Some(packet_of(ds[j]))
            } else {
                None
            },
    )
}

/// A datagram that is not accepted (bad header, checksum, length or
/// sub-packet fields) leaves the transport unchanged and yields no frame.
pub proof fn lemma_rejected_datagram_changes_nothing(s: TransportView, d: Seq<u8>)
    requires
        !accepted(d),
    ensures
        spec_step(s, d) == (s, None::<Seq<u8>>),
{
}

proof fn lemma_joined_filled(ds: Seq<Seq<u8>>, n: int, m: int)
    requires
        0 <= m <= n <= CMD_FRAME_MAX_SUB_PKG_NUM,
        n <= ds.len(),
    ensures
        joined(filled(ds, n), m) == concat_payloads(ds.take(m)),
    decreases m,
{
    if m > 0 {
        lemma_joined_filled(ds, n, m - 1);
        assert(ds.take(m).drop_last() =~= ds.take(m - 1));
    } else {
        assert(ds.take(0).len() == 0);
    }
}

proof fn lemma_prefix_state(s: TransportView, ds: Seq<Seq<u8>>, k: int)
    requires
        s.slots == empty_slots(),
        one_frame_in_order(ds),
        0 <= k < ds.len(),
    ensures
        feed(s, ds.take(k)) == (TransportView { slots: filled(ds, k), ..s }),
        k > 0 ==> spec_step(feed(s, ds.take(k - 1)), ds[k - 1]).1 is None,
    decreases k,
{
    if k == 0 {
        assert(ds.take(0).len() == 0);
        assert(filled(ds, 0) =~= empty_slots());
    } else {
        lemma_prefix_state(s, ds, k - 1);
        assert(ds.take(k).drop_last() =~= ds.take(k - 1));
        assert(ds.take(k).last() == ds[k - 1]);
        let prev = feed(s, ds.take(k - 1));
        let d = ds[k - 1];
        assert(accepted(d));
        let slots1 = prev.slots.update(sub_index(d) as int, Some(packet_of(d)));
        assert(slots1 =~= filled(ds, k));
        let n = ds.len() as int;
        assert(slots1[n - 1] is None);
        assert(!all_received(slots1, n, frame_index(d)));
    }
}

/// Reassembly: when the sub-packets of one frame arrive in order on a
/// transport with empty slots and no skipping, and their payloads together
/// are whole frames, no datagram but the last yields anything and the last
/// yields the payloads joined in order; the slots are empty again, the frame
/// index is remembered and one iteration is counted.
pub proof fn lemma_frame_reassembled(s: TransportView, ds: Seq<Seq<u8>>)
    requires
        s.slots == empty_slots(),
        s.skip == 0,
        s.iteration_count < u64::MAX,
        one_frame_in_order(ds),
        frame_length_ok(concat_payloads(ds).len() as int),
    ensures
        forall|k: int| 0 <= k < ds.len() - 1 ==> (#[trigger] spec_step(feed(s, ds.take(k)), ds[k])).1 is None,
        spec_step(feed(s, ds.take(ds.len() - 1)), ds[ds.len() - 1]).1 == Some(concat_payloads(ds)),
        feed(s, ds) == (TransportView {
            slots: empty_slots(),
            last_frame_total_index: frame_index(ds[0]),
            iteration_count: (s.iteration_count + 1) as u64,
            ..s
        }),
{
    let n = ds.len() as int;
    assert forall|k: int| 0 <= k < n - 1 implies (#[trigger] spec_step(feed(s, ds.take(k)), ds[k])).1 is None by {
        lemma_prefix_state(s, ds, k + 1);
    }
    lemma_prefix_state(s, ds, n - 1);
    let prev = feed(s, ds.take(n - 1));
    let d = ds[n - 1];
    let slots1 = prev.slots.update(sub_index(d) as int, Some(packet_of(d)));
    assert(slots1 =~= filled(ds, n));
    assert(all_received(slots1, n, frame_index(d)));
    lemma_joined_filled(ds, n, n);
    assert(ds.take(n) =~= ds);
    assert(ds.drop_last() =~= ds.take(n - 1));
}

/// A datagram that completes a frame of whole-frame length counts it, and the
/// frame is handed out exactly when the skip setting does not drop it.
pub proof fn lemma_completed_frame_skip(s: TransportView, d: Seq<u8>)
    requires
        accepted(d),
        all_received(
            s.slots.update(sub_index(d) as int, Some(packet_of(d))),
            sub_count(d) as int,
            frame_index(d),
        ),
        frame_length_ok(
            joined(s.slots.update(sub_index(d) as int, Some(packet_of(d))), sub_count(d) as int).len() as int,
        ),
    ensures
        spec_step(s, d).0.iteration_count == (s.iteration_count + 1) as u64,
        spec_step(s, d).1 is None <==> skip_drops(s.skip, (s.iteration_count + 1) as u64 as int),
{
}

/// Skip rate: with skip `N > 0`, of any `N + 1` consecutively counted frames
/// exactly one is dropped; with skip 0 none is.
pub proof fn lemma_skip_drops_one_per_group(skip: u32, c: int)
    requires
        c >= 0,
    ensures
        skip == 0 ==> forall|i: int| !#[trigger] skip_drops(skip, i),
        skip > 0 ==> exists|i: int| 1 <= i <= skip + 1 && #[trigger] skip_drops(skip, c + i),
        skip > 0 ==> forall|i: int, j: int|
            1 <= i <= skip + 1 && 1 <= j <= skip + 1 && #[trigger] skip_drops(skip, c + i)
                && #[trigger] skip_drops(skip, c + j) ==> i == j,
{
    if skip > 0 {
        let m = skip as int + 1;
        let q = c / m;
        let r = c % m;
        lemma_fundamental_div_mod(c, m);
        lemma_mod_pos_bound(c, m);
        let i0 = m - r;
        assert(c + i0 == (q + 1) * m) by (nonlinear_arith)
            requires
                c == m * q + r,
                i0 == m - r,
        ;
        lemma_mod_multiples_basic(q + 1, m);
        assert(skip_drops(skip, c + i0));
        assert forall|i: int, j: int|
            1 <= i <= skip + 1 && 1 <= j <= skip + 1 && #[trigger] skip_drops(skip, c + i)
                && #[trigger] skip_drops(skip, c + j) implies i == j by {
            lemma_fundamental_div_mod(c + i, m);
            lemma_fundamental_div_mod(c + j, m);
            let a = (c + i) / m;
            let b = (c + j) / m;
            assert(i == j) by (nonlinear_arith)
                requires
                    m >= 2,
                    1 <= i <= m,
                    1 <= j <= m,
                    c + i == m * a,
                    c + j == m * b,
            ;
        }
    }
}

/// A frame is never glued from two frames: when another slot below the
/// datagram's sub-packet count still holds a sub-packet of a different frame,
/// the datagram yields nothing and that slot keeps its sub-packet.
pub proof fn lemma_stale_sub_packet_blocks_frame(s: TransportView, d: Seq<u8>, j: int)
    requires
        slots_wf(s.slots),
        0 <= j < sub_count(d),
        j != sub_index(d),
        j < s.slots.len(),
        s.slots[j] is Some,
        s.slots[j]->0.total_index != frame_index(d),
    ensures
        spec_step(s, d).1 is None,
        spec_step(s, d).0.slots[j] == s.slots[j],
{
    if accepted(d) {
        let slots1 = s.slots.update(sub_index(d) as int, Some(packet_of(d)));
        assert(slots1[j] == s.slots[j]);
        assert(!all_received(slots1, sub_count(d) as int, frame_index(d)));
    }
}

/// A payload is handed out only when the datagram's own frame is whole: every
/// other slot below its sub-packet count held a sub-packet of the same frame
/// index, and the payload is those sub-packets' payloads, with this
/// datagram's in the slot of its index, joined in sub-packet order.
pub proof fn lemma_handed_out_frame_is_one_frame(s: TransportView, d: Seq<u8>)
    requires
        slots_wf(s.slots),
        spec_step(s, d).1 is Some,
    ensures
        accepted(d),
        forall|j: int|
            0 <= j < sub_count(d) && j != sub_index(d) ==> #[trigger] s.slots[j] is Some
                && s.slots[j]->0.total_index == frame_index(d),
        spec_step(s, d).1 == Some(
            joined(s.slots.update(sub_index(d) as int, Some(packet_of(d))), sub_count(d) as int),
        ),
        frame_length_ok(spec_step(s, d).1->0.len() as int),
{
    let slots1 = s.slots.update(sub_index(d) as int, Some(packet_of(d)));
    assert forall|j: int|
        0 <= j < sub_count(d) && j != sub_index(d) implies #[trigger] s.slots[j] is Some
            && s.slots[j]->0.total_index == frame_index(d) by {
        assert(slots1[j] == s.slots[j]);
        assert(slots1[j] is Some);
    }
}

} // verus!
