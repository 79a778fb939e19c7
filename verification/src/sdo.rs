//! CANopen SDO (Service Data Object) codec for the DS20270DA servo drives.
//!
//! An SDO transfer sends one request frame to COB-ID `0x600 + node` and waits
//! for the drive's answer on COB-ID `0x580 + node`. This module builds the
//! request frames and decides what an answer means; the waiting itself
//! (reading the bus until the answer or a timeout) belongs to the caller.
use vstd::prelude::*;
use crate::can_frame::{CanMsg, id_for_cob, id_raw, can_frame_cob, make_can_frame};

verus! {

// ── SDO command codes ────────────────────────────────────────────────────

pub const SDO_WRITE_1BYTE: u8 = 0x2F;
pub const SDO_WRITE_2BYTE: u8 = 0x2B;
pub const SDO_WRITE_4BYTE: u8 = 0x23;
pub const SDO_READ: u8 = 0x40;

pub const SDO_WRITE_SUCCESS: u8 = 0x60;
pub const SDO_READ_1BYTE: u8 = 0x4F;
pub const SDO_READ_2BYTE: u8 = 0x4B;
pub const SDO_READ_4BYTE: u8 = 0x43;
pub const SDO_ERROR: u8 = 0x80;

// ── COB-ID bases ─────────────────────────────────────────────────────────

/// Client → server (request).
pub const SDO_TX_BASE: u32 = 0x600;

/// Server → client (response).
pub const SDO_RX_BASE: u32 = 0x580;

/// Failures of an SDO transfer.
#[derive(Debug, Clone, Copy, PartialEq, Eq, Structural)]
pub enum SdoError {
    /// The drive aborted a write with the given abort code.
    WriteAbort { node_id: u8, index: u16, subindex: u8, abort_code: u32 },
    /// The drive aborted a read with the given abort code.
    ReadAbort { node_id: u8, index: u16, subindex: u8, abort_code: u32 },
    /// A read answer names another object than the one asked for.
    ResponseMismatch { expected_index: u16, expected_subindex: u8, index: u16, subindex: u8 },
    /// An answer whose command code does not answer the request: neither a
    /// write confirmation for a write nor a read answer for a read.
    UnexpectedCommand { command: u8 },
    /// No answer arrived on this COB-ID in time.
    Timeout { cob_id: u32 },
}

// ── Frame layout ─────────────────────────────────────────────────────────

/// The eight bytes of an expedited SDO frame: command, object index
/// (little endian), subindex, and a 32-bit value (little endian).
pub open spec fn sdo_bytes(command: u8, index: u16, subindex: u8, value: u32) -> Seq<u8> {
    seq![
        command,
        (index % 256) as u8,
        (index / 256) as u8,
        subindex,
        (value % 256) as u8,
        ((value / 256) % 256) as u8,
        ((value / 65536) % 256) as u8,
        (value / 16777216) as u8,
    ]
}

/// The little-endian 16-bit value at byte offset `at`.
pub open spec fn le_u16(b: Seq<u8>, at: int) -> u16 {
    (b[at] as int + 256 * b[at + 1] as int) as u16
}

/// The little-endian 32-bit value at byte offset `at`.
pub open spec fn le_u32(b: Seq<u8>, at: int) -> u32 {
    (b[at] as int + 256 * b[at + 1] as int + 65536 * b[at + 2] as int + 16777216 * b[at
        + 3] as int) as u32
}

/// COB-ID of requests to `node_id`.
pub open spec fn tx_cob(node_id: u8) -> u32 {
    (SDO_TX_BASE + node_id) as u32
}

/// COB-ID of answers from `node_id`.
pub open spec fn rx_cob(node_id: u8) -> u32 {
    (SDO_RX_BASE + node_id) as u32
}

// ── Requests ─────────────────────────────────────────────────────────────

fn sdo_frame(cob_id: u32, command: u8, index: u16, subindex: u8, value: u32) -> (f: CanMsg)
    requires
        cob_id <= 0x7FF,
    ensures
        f.id == id_for_cob(cob_id),
        f.data@ == sdo_bytes(command, index, subindex, value),
{
    let buf: [u8; 8] = [
        command,
        (index % 256) as u8,
        (index / 256) as u8,
        subindex,
        (value % 256) as u8,
        ((value / 256) % 256) as u8,
        ((value / 65536) % 256) as u8,
        (value / 16777216) as u8,
    ];
    let f = make_can_frame(cob_id, &buf);
    assert(f.data@ =~= sdo_bytes(command, index, subindex, value));
    f
}

/// The request frame that writes the 4-byte `data` to object
/// `index`/`subindex` of `node_id`.
pub fn write_request(node_id: u8, index: u16, subindex: u8, data: u32) -> (f: CanMsg)
    ensures
        f.id == id_for_cob(tx_cob(node_id)),
        f.data@ == sdo_bytes(SDO_WRITE_4BYTE, index, subindex, data),
{
    sdo_frame(SDO_TX_BASE + node_id as u32, SDO_WRITE_4BYTE, index, subindex, data)
}

/// The request frame that reads object `index`/`subindex` of `node_id`
/// (value bytes zero).
pub fn read_request(node_id: u8, index: u16, subindex: u8) -> (f: CanMsg)
    ensures
        f.id == id_for_cob(tx_cob(node_id)),
        f.data@ == sdo_bytes(SDO_READ, index, subindex, 0),
{
    sdo_frame(SDO_TX_BASE + node_id as u32, SDO_READ, index, subindex, 0)
}

/// COB-ID on which `node_id` answers SDO requests.
pub fn response_cob(node_id: u8) -> (r: u32)
    ensures
        r == rx_cob(node_id),
{
    SDO_RX_BASE + node_id as u32
}

/// Whether `frame` is an SDO answer from `node_id`; any other frame is not
/// for this transfer and is passed over.
pub fn is_response_from(frame: &CanMsg, node_id: u8) -> (r: bool)
    ensures
        r == (id_raw(frame.id) == rx_cob(node_id)),
{
    can_frame_cob(frame) == response_cob(node_id)
}

// ── Answers ──────────────────────────────────────────────────────────────

/// The outcome of a write whose answer carries `d`: only a write-success
/// answer (0x60) confirms the write; an abort answer (0x80) gives its abort
/// code (bytes 4..8); any other command code is unexpected.
pub open spec fn write_result(node_id: u8, index: u16, subindex: u8, d: Seq<u8>) -> Result<
    (),
    SdoError,
> {
    if d[0] == SDO_WRITE_SUCCESS {
        Ok(())
    } else if d[0] == SDO_ERROR {
        Err(SdoError::WriteAbort { node_id, index, subindex, abort_code: le_u32(d, 4) })
    } else {
        Err(SdoError::UnexpectedCommand { command: d[0] })
    }
}

/// An answer to a write that can be decoded: it has a command byte, and an
/// abort answer has its four code bytes.
pub open spec fn write_answer_complete(d: Seq<u8>) -> bool {
    &&& d.len() >= 1
    &&& d[0] == SDO_ERROR ==> d.len() >= 8
}

/// Decides the outcome of a write from the data bytes of its answer.
pub fn check_write_response(node_id: u8, index: u16, subindex: u8, data: &[u8]) -> (r: Result<
    (),
    SdoError,
>)
    requires
        write_answer_complete(data@),
    ensures
        r == write_result(node_id, index, subindex, data@),
{
    if data[0] == SDO_WRITE_SUCCESS {
        Ok(())
    } else if data[0] == SDO_ERROR {
        let abort_code = le_u32_at(data, 4);
        Err(SdoError::WriteAbort { node_id, index, subindex, abort_code })
    } else {
        Err(SdoError::UnexpectedCommand { command: data[0] })
    }
}

/// The outcome of a read of `index`/`subindex` whose answer carries `d`.
///
/// An abort answer gives its abort code; an answer about another object is a
/// mismatch; a 1-, 2- or 4-byte read answer gives its value, zero-extended;
/// any other command code is unexpected.
pub open spec fn read_result(node_id: u8, index: u16, subindex: u8, d: Seq<u8>) -> Result<
    u32,
    SdoError,
> {
    if d[0] == SDO_ERROR {
        Err(SdoError::ReadAbort { node_id, index, subindex, abort_code: le_u32(d, 4) })
    } else if le_u16(d, 1) != index || d[3] != subindex {
        Err(
            SdoError::ResponseMismatch {
                expected_index: index,
                expected_subindex: subindex,
                index: le_u16(d, 1),
                subindex: d[3],
            },
        )
    } else if d[0] == SDO_READ_1BYTE {
        Ok(d[4] as u32)
    } else if d[0] == SDO_READ_2BYTE {
        Ok(le_u16(d, 4) as u32)
    } else if d[0] == SDO_READ_4BYTE {
        Ok(le_u32(d, 4))
    } else {
        Err(SdoError::UnexpectedCommand { command: d[0] })
    }
}

/// An answer to a read of `index`/`subindex` that can be decoded: every byte
/// that `read_result` looks at is there.
pub open spec fn read_answer_complete(index: u16, subindex: u8, d: Seq<u8>) -> bool {
    &&& d.len() >= 1
    &&& d[0] == SDO_ERROR ==> d.len() >= 8
    &&& d[0] != SDO_ERROR ==> d.len() >= 4
    &&& (d[0] != SDO_ERROR && le_u16(d, 1) == index && d[3] == subindex) ==> {
        &&& d[0] == SDO_READ_1BYTE ==> d.len() >= 5
        &&& d[0] == SDO_READ_2BYTE ==> d.len() >= 6
        &&& d[0] == SDO_READ_4BYTE ==> d.len() >= 8
    }
}

/// Decides the outcome of a read from the data bytes of its answer.
pub fn decode_read_response(node_id: u8, index: u16, subindex: u8, data: &[u8]) -> (r: Result<
    u32,
    SdoError,
>)
    requires
        read_answer_complete(index, subindex, data@),
    ensures
        r == read_result(node_id, index, subindex, data@),
{
    let cmd = data[0];
    if cmd == SDO_ERROR {
        let abort_code = le_u32_at(data, 4);
        return Err(SdoError::ReadAbort { node_id, index, subindex, abort_code });
    }
    let resp_index: u16 = data[1] as u16 + 256 * data[2] as u16;
    let resp_sub = data[3];
    if resp_index != index || resp_sub != subindex {
        return Err(
            SdoError::ResponseMismatch {
                expected_index: index,
                expected_subindex: subindex,
                index: resp_index,
                subindex: resp_sub,
            },
        );
    }
    if cmd == SDO_READ_1BYTE {
        Ok(data[4] as u32)
    } else if cmd == SDO_READ_2BYTE {
        Ok(data[4] as u32 + 256 * data[5] as u32)
    } else if cmd == SDO_READ_4BYTE {
        Ok(le_u32_at(data, 4))
    } else {
        Err(SdoError::UnexpectedCommand { command: cmd })
    }
}

/// Whether a write answer carries every byte `check_write_response` reads.
pub fn is_write_answer_complete(data: &[u8]) -> (r: bool)
    ensures
        r == write_answer_complete(data@),
{
    data.len() >= 1 && (data[0] != SDO_ERROR || data.len() >= 8)
}

/// Whether a read answer carries every byte `decode_read_response` reads.
pub fn is_read_answer_complete(index: u16, subindex: u8, data: &[u8]) -> (r: bool)
    ensures
        r == read_answer_complete(index, subindex, data@),
{
    if data.len() < 1 {
        return false;
    }
    let cmd = data[0];
    if cmd == SDO_ERROR {
        return data.len() >= 8;
    }
    if data.len() < 4 {
        return false;
    }
    let resp_index: u16 = data[1] as u16 + 256 * data[2] as u16;
    if resp_index != index || data[3] != subindex {
        return true;
    }
    if cmd == SDO_READ_1BYTE {
        data.len() >= 5
    } else if cmd == SDO_READ_2BYTE {
        data.len() >= 6
    } else if cmd == SDO_READ_4BYTE {
        data.len() >= 8
    } else {
        true
    }
}

/// The little-endian 32-bit value at byte offset `at`.
fn le_u32_at(data: &[u8], at: usize) -> (r: u32)
    requires
        at + 4 <= data@.len(),
    ensures
        r == le_u32(data@, at as int),
{
    data[at] as u32 + 256 * data[at + 1] as u32 + 65536 * data[at + 2] as u32 + 16777216
        * data[at + 3] as u32
}

// ── Laws ─────────────────────────────────────────────────────────────────

/// The frame layout is read back as written: the object index, subindex and
/// value of an SDO frame decode to what was encoded.
pub proof fn lemma_sdo_bytes_roundtrip(command: u8, index: u16, subindex: u8, value: u32)
    ensures
        sdo_bytes(command, index, subindex, value)[0] == command,
        le_u16(sdo_bytes(command, index, subindex, value), 1) == index,
        sdo_bytes(command, index, subindex, value)[3] == subindex,
        le_u32(sdo_bytes(command, index, subindex, value), 4) == value,
{
}

/// A 4-byte read answer that echoes the requested object reads as its value.
pub proof fn lemma_read_answer_gives_value(node_id: u8, index: u16, subindex: u8, value: u32)
    ensures
        read_answer_complete(index, subindex, sdo_bytes(SDO_READ_4BYTE, index, subindex, value)),
        read_result(node_id, index, subindex, sdo_bytes(SDO_READ_4BYTE, index, subindex, value))
            == Ok::<u32, SdoError>(value),
{
    lemma_sdo_bytes_roundtrip(SDO_READ_4BYTE, index, subindex, value);
}

/// A write-success answer confirms the write; an abort answer reports its
/// abort code; an answer with any other command code does not confirm it.
pub proof fn lemma_write_answers(node_id: u8, index: u16, subindex: u8, value: u32, code: u32)
    ensures
        write_result(node_id, index, subindex, sdo_bytes(SDO_WRITE_SUCCESS, index, subindex, value))
            == Ok::<(), SdoError>(()),
        write_result(node_id, index, subindex, sdo_bytes(SDO_ERROR, index, subindex, code))
            == Err::<(), SdoError>(
            SdoError::WriteAbort { node_id, index, subindex, abort_code: code },
        ),
        forall|command: u8|
            command != SDO_WRITE_SUCCESS ==> (#[trigger] write_result(
                node_id,
                index,
                subindex,
                sdo_bytes(command, index, subindex, value),
            )) is Err,
{
    lemma_sdo_bytes_roundtrip(SDO_ERROR, index, subindex, code);
}

} // verus!
