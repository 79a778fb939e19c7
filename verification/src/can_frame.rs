//! CAN frames as the CANopen logic sees them: an identifier and up to eight
//! data bytes.
use vstd::prelude::*;

verus! {

/// A CAN identifier: 11-bit standard or 29-bit extended.
#[derive(Debug, Clone, Copy, PartialEq, Eq, Structural)]
pub enum CanId {
    Standard(u16),
    Extended(u32),
}

/// A CAN data frame.
#[derive(Debug, Clone, PartialEq, Eq)]
pub struct CanMsg {
    pub id: CanId,
    pub data: Vec<u8>,
}

/// Largest standard (11-bit) identifier.
pub const MAX_STANDARD_ID: u32 = 0x7FF;

/// Largest extended (29-bit) identifier.
pub const MAX_EXTENDED_ID: u32 = 0x1FFF_FFFF;

/// The raw value of an identifier.
pub open spec fn id_raw(id: CanId) -> u32 {
    match id {
        CanId::Standard(raw) => raw as u32,
        CanId::Extended(raw) => raw,
    }
}

/// The identifier used for a COB-ID: standard when it fits in 11 bits,
/// extended otherwise.
pub open spec fn id_for_cob(cob_id: u32) -> CanId {
    if cob_id > MAX_STANDARD_ID {
        CanId::Extended(cob_id)
    } else {
        CanId::Standard(cob_id as u16)
    }
}

/// Builds a data frame with the given COB-ID and 8-byte payload.
pub fn make_can_frame(cob_id: u32, data: &[u8; 8]) -> (f: CanMsg)
    requires
        cob_id <= MAX_EXTENDED_ID,
    ensures
        f.id == id_for_cob(cob_id),
        f.data@ == data@,
{
    let id = if cob_id > MAX_STANDARD_ID {
        CanId::Extended(cob_id)
    } else {
        CanId::Standard(cob_id as u16)
    };
    let bytes = vec![data[0], data[1], data[2], data[3], data[4], data[5], data[6], data[7]];
    assert(bytes@ =~= data@);
    CanMsg { id, data: bytes }
}

/// The raw COB-ID of a frame.
pub fn can_frame_cob(frame: &CanMsg) -> (r: u32)
    ensures
        r == id_raw(frame.id),
{
    match frame.id {
        CanId::Standard(raw) => raw as u32,
        CanId::Extended(raw) => raw,
    }
}

/// A frame built for a COB-ID carries that COB-ID back.
pub proof fn lemma_cob_roundtrip(cob_id: u32)
    requires
        cob_id <= MAX_EXTENDED_ID,
    ensures
        id_raw(id_for_cob(cob_id)) == cob_id,
{
}

} // verus!
