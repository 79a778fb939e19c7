//! Protocol constants of the Keli LSE-2027DE LiDAR.
use vstd::prelude::*;

verus! {

/// Frame header that starts every datagram sent by the scanner.
pub const FRAME_HEADER: [u8; 4] = [0xFA, 0x5A, 0xA5, 0xAA];

/// Length in bytes of one logical frame of range data.
pub const FRAME_LENGTH: usize = 1622;

pub const ETX: u8 = 0x66;

/// Command: start streaming.
pub const CMD_START_STREAM: [u8; 8] = [0xFA, 0x5A, 0xA5, 0xAA, 0x00, 0x02, 0x01, 0x01];

/// Command: stop streaming (the scanner toggles the stream with the same packet).
pub const CMD_STOP_STREAM: [u8; 8] = [0xFA, 0x5A, 0xA5, 0xAA, 0x00, 0x02, 0x01, 0x01];

/// Command: reboot the scanner.
pub const CMD_REBOOT: [u8; 8] = [0xFA, 0x5A, 0xA5, 0xAA, 0x00, 0x02, 0x03, 0x03];

/// Command: read the serial number.
pub const CMD_READ_SERIAL: [u8; 8] = [0xFA, 0x5A, 0xA5, 0xAA, 0x00, 0x02, 0x05, 0x05];

/// Command: read the device state.
pub const CMD_READ_DEVICE_STATE: [u8; 8] = [0xFA, 0x5A, 0xA5, 0xAA, 0x00, 0x02, 0x04, 0x04];

/// Size in bytes of every command packet.
pub const CMD_SIZE: usize = 8;

// Offsets of the sub-packet header fields within a received datagram.
pub const HDR_LENGTH_H: usize = 4;
pub const HDR_LENGTH_L: usize = 5;
pub const HDR_CHECKSUM: usize = 6;
pub const HDR_TYPE: usize = 7;
pub const HDR_TOTAL_IDX_H: usize = 8;
pub const HDR_TOTAL_IDX_L: usize = 9;
pub const HDR_SUB_PKG_NUM: usize = 10;
pub const HDR_SUB_INDEX: usize = 11;
pub const HDR_DATA_START: usize = 12;

/// Size of the receive buffer: no datagram is longer than this.
pub const RECV_BUFFER_SIZE: usize = 65536;

/// Longest datagram that reassembly accepts.
pub const CMD_FRAME_MAX_LEN: usize = 1500;

/// Most sub-packets one frame is split into.
pub const CMD_FRAME_MAX_SUB_PKG_NUM: usize = 4;

/// Fewest sub-packets one frame is split into.
pub const CMD_FRAME_MIN_SUB_PKG_NUM: usize = 2;

/// Raw range value that signals a system fault.
pub const RANGE_FAULT: u16 = 1;

/// Largest raw range value (mm) that is a real measurement.
pub const RANGE_MAX_VALID: u16 = 50000;

} // verus!
