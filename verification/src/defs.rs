//! The fixed command catalog of the chip, the decoded shapes of its replies,
//! and the exact byte strings of the commands the driver issues.

use vstd::prelude::*;

verus! {

/// Opcode of the PART_INFO command (no arguments, 9 reply bytes).
pub const CMD_PART_INFO: u8 = 0x01;

/// Opcode of the FUNC_INFO command (no arguments, 11 reply bytes).
pub const CMD_FUNC_INFO: u8 = 0x10;

/// Opcode of the EZCONFIG_CHECK command (variable arguments, 1 reply byte).
pub const CMD_EZCONFIG_CHECK: u8 = 0x19;

/// Opcode of the GET_INT_STATUS command (3 arguments, 8 reply bytes).
pub const CMD_GET_INT_STATUS: u8 = 0x20;

/// Opcode of the START_TX command (5 arguments, no reply).
pub const CMD_START_TX: u8 = 0x31;

/// Opcode of the START_RX command (7 arguments, no reply).
pub const CMD_START_RX: u8 = 0x32;

/// Opcode of the REQUEST_DEVICE_STATE command (no arguments, 2 reply bytes).
pub const CMD_REQUEST_DEVICE_STATE: u8 = 0x33;

/// Opcode of the READ_CMD_BUFF command, used to poll the ready signal.
pub const CMD_READ_CMD_BUFF: u8 = 0x44;

/// Opcode of the FRR_A_READ command (no arguments, 1 reply byte).
pub const CMD_FRR_A_READ: u8 = 0x50;

/// Opcode of the WRITE_TX_FIFO command (variable payload, no reply).
pub const CMD_WRITE_TX_FIFO: u8 = 0x66;

/// Opcode of the FIFO_INFO command (1 argument, 2 reply bytes).
pub const CMD_FIFO_INFO: u8 = 0x15;

/// The ready sentinel: the chip answers this byte to a poll once it will
/// accept the next command.
pub const READY_BYTE: u8 = 0xFF;

/// FIFO_INFO argument resetting both the transmit and the receive FIFO.
pub const FIFO_RESET_BOTH: u8 = 0x03;

/// Device state code for the transmitting state.
pub const STATE_TX: u8 = 0x07;

/// Device state code for the transmit-tune state.
pub const STATE_TX_TUNE: u8 = 0x05;

/// Device state code for the receiving state, also used as the "remain in
/// receive" entry of the START_RX next-state vector.
pub const STATE_RX: u8 = 0x08;

/// Packet-handler pending bit: packet sent.
pub const INT_PH_PACKET_SENT: u8 = 0x20;

/// Packet-handler pending bit: packet received.
pub const INT_PH_PACKET_RX: u8 = 0x10;

/// Packet-handler pending bit: CRC error in a received packet.
pub const INT_PH_CRC_ERROR: u8 = 0x08;

/// Packet-handler pending bit: transmit FIFO almost empty.
pub const INT_PH_TX_FIFO_ALMOST_EMPTY: u8 = 0x02;

/// Packet-handler pending bit: receive FIFO almost full.
pub const INT_PH_RX_FIFO_ALMOST_FULL: u8 = 0x01;

/// Modem pending bit: invalid sync word (informational).
pub const INT_MODEM_INVALID_SYNC: u8 = 0x20;

/// Modem pending bit: invalid preamble (informational).
pub const INT_MODEM_INVALID_PREAMBLE: u8 = 0x04;

/// Chip pending bit: FIFO underflow or overflow.
pub const INT_CHIP_FIFO_UNDERFLOW_OVERFLOW: u8 = 0x20;

/// Chip pending bit: the chip rejected a command.
pub const INT_CHIP_CMD_ERROR: u8 = 0x08;

/// START_TX condition byte asking the chip to return to the receive state
/// once the transmission completes (the receive state code in the upper
/// nibble of the condition byte).
pub const START_TX_RETURN_TO_RX: u8 = 0x80;

/// Basic information about the device.
#[derive(Debug, Clone, Copy, PartialEq, Eq, Structural)]
pub struct PartInfo {
    /// Chip revision.
    pub revision: u8,
    /// Part number.
    pub part: u16,
    /// Part build.
    pub builder: u8,
    /// Die identifier.
    pub id: u16,
    /// Customer identifier.
    pub customer: u8,
    /// ROM identifier.
    pub rom_id: u8,
    /// Bond option.
    pub bond: u8,
}

/// Function revision information of the device.
#[derive(Debug, Clone, Copy, PartialEq, Eq, Structural)]
pub struct FuncInfo {
    /// External revision number.
    pub rev_ext: u8,
    /// Branch revision number.
    pub rev_branch: u8,
    /// Internal revision number.
    pub rev_int: u8,
    /// Patch identifier.
    pub patch: u16,
    /// Function number.
    pub func: u8,
    /// Repository flags.
    pub svn_flags: u8,
    /// Repository revision.
    pub svn_rev: u32,
}

/// Interrupt status: the eight byte fields of a GET_INT_STATUS reply.
#[derive(Debug, Clone, Copy, PartialEq, Eq, Structural)]
pub struct IntStatus {
    /// Summary pending byte.
    pub int_pending: u8,
    /// Summary status byte.
    pub int_status: u8,
    /// Packet-handler pending byte.
    pub ph_pending: u8,
    /// Packet-handler status byte.
    pub ph_status: u8,
    /// Modem pending byte.
    pub modem_pending: u8,
    /// Modem status byte.
    pub modem_status: u8,
    /// Chip pending byte.
    pub chip_pending: u8,
    /// Chip status byte.
    pub chip_status: u8,
}

/// Device status as reported by REQUEST_DEVICE_STATE: an opaque numeric state
/// code and the current channel. The chip, not the driver, owns state
/// transitions, so the code is kept raw rather than forced into an enum.
#[derive(Debug, Clone, Copy, PartialEq, Eq, Structural)]
pub struct DeviceState {
    /// Raw state code.
    pub state: u8,
    /// Current channel.
    pub channel: u8,
}

/// What a 9-byte PART_INFO reply means; multi-byte fields are big-endian.
pub open spec fn spec_part_info(r: Seq<u8>) -> PartInfo {
    PartInfo {
        revision: r[0],
        part: (r[1] as u16 * 256 + r[2] as u16) as u16,
        builder: r[3],
        id: (r[4] as u16 * 256 + r[5] as u16) as u16,
        customer: r[6],
        rom_id: r[7],
        bond: r[8],
    }
}

/// What an 11-byte FUNC_INFO reply means; multi-byte fields are big-endian.
pub open spec fn spec_func_info(r: Seq<u8>) -> FuncInfo {
    FuncInfo {
        rev_ext: r[0],
        rev_branch: r[1],
        rev_int: r[2],
        patch: (r[3] as u16 * 256 + r[4] as u16) as u16,
        func: r[5],
        svn_flags: r[6],
        svn_rev: (r[7] as u32 * 0x1000000 + r[8] as u32 * 0x10000 + r[9] as u32 * 0x100
            + r[10] as u32) as u32,
    }
}

/// What an 8-byte GET_INT_STATUS reply means.
pub open spec fn spec_int_status(r: Seq<u8>) -> IntStatus {
    IntStatus {
        int_pending: r[0],
        int_status: r[1],
        ph_pending: r[2],
        ph_status: r[3],
        modem_pending: r[4],
        modem_status: r[5],
        chip_pending: r[6],
        chip_status: r[7],
    }
}

/// What a 2-byte REQUEST_DEVICE_STATE reply means.
pub open spec fn spec_device_state(r: Seq<u8>) -> DeviceState {
    DeviceState { state: r[0], channel: r[1] }
}

/// Decode a 9-byte PART_INFO reply; multi-byte fields are big-endian.
pub fn decode_part_info(r: &Vec<u8>) -> (p: PartInfo)
    requires
        r@.len() == 9,
    ensures
        p == spec_part_info(r@),
{
    PartInfo {
        revision: r[0],
        part: r[1] as u16 * 256 + r[2] as u16,
        builder: r[3],
        id: r[4] as u16 * 256 + r[5] as u16,
        customer: r[6],
        rom_id: r[7],
        bond: r[8],
    }
}

/// Decode an 11-byte FUNC_INFO reply; multi-byte fields are big-endian.
pub fn decode_func_info(r: &Vec<u8>) -> (f: FuncInfo)
    requires
        r@.len() == 11,
    ensures
        f == spec_func_info(r@),
{
    FuncInfo {
        rev_ext: r[0],
        rev_branch: r[1],
        rev_int: r[2],
        patch: r[3] as u16 * 256 + r[4] as u16,
        func: r[5],
        svn_flags: r[6],
        svn_rev: r[7] as u32 * 0x1000000 + r[8] as u32 * 0x10000 + r[9] as u32 * 0x100
            + r[10] as u32,
    }
}

/// Decode an 8-byte GET_INT_STATUS reply into its eight fields.
pub fn decode_int_status(r: &Vec<u8>) -> (s: IntStatus)
    requires
        r@.len() == 8,
    ensures
        s == spec_int_status(r@),
{
    IntStatus {
        int_pending: r[0],
        int_status: r[1],
        ph_pending: r[2],
        ph_status: r[3],
        modem_pending: r[4],
        modem_status: r[5],
        chip_pending: r[6],
        chip_status: r[7],
    }
}

/// Decode a 2-byte REQUEST_DEVICE_STATE reply.
pub fn decode_device_state(r: &Vec<u8>) -> (s: DeviceState)
    requires
        r@.len() == 2,
    ensures
        s == spec_device_state(r@),
{
    DeviceState { state: r[0], channel: r[1] }
}

/// The byte string of a START_TX command: opcode, channel, condition,
/// packet length big-endian, and a zero trailing length-extension byte.
pub open spec fn start_tx_bytes(channel: u8, condition: u8, length: u16) -> Seq<u8> {
    seq![
        CMD_START_TX,
        channel,
        condition,
        (length / 256) as u8,
        (length % 256) as u8,
        0u8,
    ]
}

/// The byte string of a START_RX command: opcode, channel, condition, packet
/// length big-endian, and the three next-state vector entries.
pub open spec fn start_rx_bytes(
    channel: u8,
    condition: u8,
    length: u16,
    next1: u8,
    next2: u8,
    next3: u8,
) -> Seq<u8> {
    seq![
        CMD_START_RX,
        channel,
        condition,
        (length / 256) as u8,
        (length % 256) as u8,
        next1,
        next2,
        next3,
    ]
}

/// The byte string of a GET_INT_STATUS command with its three clear masks.
pub open spec fn get_int_status_bytes(ph: u8, modem: u8, chip: u8) -> Seq<u8> {
    seq![CMD_GET_INT_STATUS, ph, modem, chip]
}

/// The byte string of the FIFO_INFO command that resets both FIFOs.
pub open spec fn fifo_reset_bytes() -> Seq<u8> {
    seq![CMD_FIFO_INFO, FIFO_RESET_BOTH]
}

} // verus!
