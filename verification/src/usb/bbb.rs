//! Constants and structures of the USB mass-storage Bulk-Only (BBB)
//! transport: the command block and command status wrappers and their
//! verified decoders.

use vstd::prelude::*;
use crate::bytes::{le32, read_u32_le};

verus! {

/// Bulk-only storage protocol code in `bInterfaceProtocol`.
pub const PR_BBB: u8 = 0x50;

pub const RESET: u8 = 0xff;
pub const MAX_LUN: u8 = 0xfe;
pub const CBW_SIGN: u32 = 0x43425355;
pub const CSW_SIGN: u32 = 0x53425355;

// Command block status codes.
pub const STAT_OK: u8 = 0x00;
pub const STAT_FAIL: u8 = 0x01;
pub const STAT_PHASE: u8 = 0x02;

/// The 8 bytes that begin both wrappers: a signature telling CBW from
/// CSW, and a tag matching a response to its request.
#[derive(Copy, Clone)]
pub struct CommandHeader {
    pub signature: u32,
    pub tag: u32,
}

pub const HEADER_SIZE: usize = 8;

/// Decode the command header at `off`.
pub fn parse_command_header(data: &[u8], off: usize) -> (r: CommandHeader)
    requires
        off + HEADER_SIZE <= data@.len(),
    ensures
        r.signature == le32(data@, off as int),
        r.tag == le32(data@, off as int + 4),
{
    let n = data.len();
    CommandHeader { signature: read_u32_le(data, off), tag: read_u32_le(data, off + 4) }
}

/// Command Block Wrapper: the host's command to the storage device.
#[derive(Copy, Clone)]
pub struct CommandBlockWrapper {
    pub transfer_length: u32,
    pub flags: u8,
    pub cb_lun: u8,
    /// Length of the meaningful bytes in `bcbw`.
    pub cb_length: u8,
    /// Command block to be executed by the device. The validator does
    /// not inspect it.
    pub bcbw: [u8; 16],
}

pub const CBW_SIZE: usize = 23;

/// Decode the scalar fields of a CBW at `off`. The 16 command-block
/// bytes that follow them on the wire are not modeled: the checks read
/// only the scalar fields, and the returned `bcbw` is left zeroed.
pub fn parse_cbw(data: &[u8], off: usize) -> (r: CommandBlockWrapper)
    requires
        off + CBW_SIZE <= data@.len(),
    ensures
        r.transfer_length == le32(data@, off as int),
        r.flags == data@[off as int + 4],
        r.cb_lun == data@[off as int + 5],
        r.cb_length == data@[off as int + 6],
{
    let n = data.len();
    let bcbw: [u8; 16] = [0; 16];
    CommandBlockWrapper {
        transfer_length: read_u32_le(data, off),
        flags: data[off + 4],
        cb_lun: data[off + 5],
        cb_length: data[off + 6],
        bcbw: bcbw,
    }
}

/// Command Status Wrapper: the device's status reply for one CBW.
#[derive(Copy, Clone)]
pub struct CommandStatusWrapper {
    /// `transfer_length` from the CBW minus the bytes actually moved.
    pub data_residue: u32,
    pub status: u8,
}

pub const CSW_SIZE: usize = 5;

/// Decode a CSW at `off`.
pub fn parse_csw(data: &[u8], off: usize) -> (r: CommandStatusWrapper)
    requires
        off + CSW_SIZE <= data@.len(),
    ensures
        r.data_residue == le32(data@, off as int),
        r.status == data@[off as int + 4],
{
    let n = data.len();
    CommandStatusWrapper { data_residue: read_u32_le(data, off), status: data[off + 4] }
}

} // verus!
