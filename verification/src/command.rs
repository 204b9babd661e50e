//! The command catalog: one factory function per supported device
//! operation, each returning a fully parameterised [`Command`].
//!
//! Every command is bound to a numeric opcode, the byte size the device
//! expects to receive with it, the byte size of the reply it produces, and a
//! fixed-arity parameter list. The factory functions are the single place
//! where these protocol constants live; each one's contract states the exact
//! wire-level content of the command it builds.

use vstd::prelude::*;

verus! {

// Device opcodes.
const KINECT_CMD_READ_FIRMWARE_VERSIONS: u32 = 0x02;
const KINECT_CMD_INIT_STREAMS: u32 = 0x09;
const KINECT_CMD_READ_HARDWARE_INFO: u32 = 0x14;
const KINECT_CMD_READ_STATUS: u32 = 0x16;
const KINECT_CMD_READ_DATA_PAGE: u32 = 0x22;

const KINECT_CMD_SET_STREAMING: u32 = 0x2b;
const KINECT_CMD_SET_MODE: u32 = 0x4b;

const KINECT_CMD_RGB_SETTING: u32 = 0x3e;

const KINECT_CMD_STOP: u32 = 0x0a;
const KINECT_CMD_SHUTDOWN: u32 = 0x00;

// Reply sizes that are dictated by the device's fixed internal table
// dimensions: 8 header words of 4 bytes plus 512x424x3 + 6 entries of 2
// bytes for the P0 tables; 23 words for the depth parameters; 28x23x5 + 25
// words plus one byte for the RGB parameters; 4 words for a colour setting.
const P0_TABLES_RESPONSE_SIZE: u32 = 4 * 8 + 2 * (512 * 424 * 3 + 6);
const DEPTH_PARAMS_RESPONSE_SIZE: u32 = 4 * 23;
const RGB_PARAMS_RESPONSE_SIZE: u32 = 4 * (28 * 23 * 5 + 25) + 1;
const COLOR_SETTING_RESPONSE_SIZE: u32 = 4 * 4;

/// One fully described device request: which operation to perform, how many
/// bytes travel in each direction, whether the exchange is sequence-tagged,
/// and the operation's parameter words.
///
/// A `Command` is pure data: it is built by a catalog function, handed to
/// the transport layer, and never mutated.
#[derive(Debug)]
pub struct Command {
    /// Numeric identifier of the device operation.
    pub opcode: u32,
    /// Byte length the device expects to receive with this command.
    pub expected_send_size: u32,
    /// Byte length the device is expected to return in response.
    pub expected_reply_size: u32,
    /// Whether the exchange is correlated by a sequence number. The two
    /// "setting" commands are fire-and-forget and carry `false` here.
    pub has_sequence: bool,
    /// The operation's parameter words, in wire order.
    pub parameters: Vec<u32>,
}

fn params0() -> (r: Vec<u32>)
    ensures
        r@ == Seq::<u32>::empty(),
{
    Vec::new()
}

fn params1(a: u32) -> (r: Vec<u32>)
    ensures
        r@ == seq![a],
{
    let mut v: Vec<u32> = Vec::new();
    v.push(a);
    proof {
        assert(v@ =~= seq![a]);
    }
    v
}

fn params4(a: u32, b: u32, c: u32, d: u32) -> (r: Vec<u32>)
    ensures
        r@ == seq![a, b, c, d],
{
    let mut v: Vec<u32> = Vec::new();
    v.push(a);
    v.push(b);
    v.push(c);
    v.push(d);
    proof {
        assert(v@ =~= seq![a, b, c, d]);
    }
    v
}

/// Reads the firmware version table.
pub fn read_firware_versions_command() -> (r: Command)
    ensures
        r.opcode == 0x02,
        r.expected_send_size == 0x200,
        r.expected_reply_size == 0x200,
        r.has_sequence,
        r.parameters@ == Seq::<u32>::empty(),
{
    Command {
        opcode: KINECT_CMD_READ_FIRMWARE_VERSIONS,
        expected_send_size: 0x200,
        expected_reply_size: 0x200,
        has_sequence: true,
        parameters: params0(),
    }
}

/// Reads the hardware description block.
pub fn read_hardware_info_command() -> (r: Command)
    ensures
        r.opcode == 0x14,
        r.expected_send_size == 0x5c,
        r.expected_reply_size == 0x5c,
        r.has_sequence,
        r.parameters@ == Seq::<u32>::empty(),
{
    Command {
        opcode: KINECT_CMD_READ_HARDWARE_INFO,
        expected_send_size: 0x5c,
        expected_reply_size: 0x5c,
        has_sequence: true,
        parameters: params0(),
    }
}

/// Tells the device to initialise its stream machinery.
pub fn init_streams_command() -> (r: Command)
    ensures
        r.opcode == 0x09,
        r.expected_send_size == 0,
        r.expected_reply_size == 0,
        r.has_sequence,
        r.parameters@ == Seq::<u32>::empty(),
{
    Command {
        opcode: KINECT_CMD_INIT_STREAMS,
        expected_send_size: 0,
        expected_reply_size: 0,
        has_sequence: true,
        parameters: params0(),
    }
}

/// Reads the serial-number data page (page selector 1).
pub fn read_serial_number_command() -> (r: Command)
    ensures
        r.opcode == 0x22,
        r.expected_send_size == 0x80,
        r.expected_reply_size == 0x80,
        r.has_sequence,
        r.parameters@ == seq![0x01u32],
{
    Command {
        opcode: KINECT_CMD_READ_DATA_PAGE,
        expected_send_size: 0x80,
        expected_reply_size: 0x80,
        has_sequence: true,
        parameters: params1(0x01),
    }
}

/// Reads the P0 calibration tables (page selector 2).
pub fn read_p0_tables_command() -> (r: Command)
    ensures
        r.opcode == 0x22,
        r.expected_send_size == 0x1C0000,
        r.expected_reply_size == 4 * 8 + 2 * (512 * 424 * 3 + 6),
        r.has_sequence,
        r.parameters@ == seq![0x02u32],
{
    Command {
        opcode: KINECT_CMD_READ_DATA_PAGE,
        expected_send_size: 0x1C0000,
        expected_reply_size: P0_TABLES_RESPONSE_SIZE,
        has_sequence: true,
        parameters: params1(0x02),
    }
}

/// Reads the depth-camera parameter table (page selector 3).
pub fn read_depth_params_command() -> (r: Command)
    ensures
        r.opcode == 0x22,
        r.expected_send_size == 0x1C0000,
        r.expected_reply_size == 4 * 23,
        r.has_sequence,
        r.parameters@ == seq![0x03u32],
{
    Command {
        opcode: KINECT_CMD_READ_DATA_PAGE,
        expected_send_size: 0x1C0000,
        expected_reply_size: DEPTH_PARAMS_RESPONSE_SIZE,
        has_sequence: true,
        parameters: params1(0x03),
    }
}

/// Reads the RGB-camera parameter table (page selector 4).
pub fn read_rgb_params_command() -> (r: Command)
    ensures
        r.opcode == 0x22,
        r.expected_send_size == 0x1C0000,
        r.expected_reply_size == 4 * (28 * 23 * 5 + 25) + 1,
        r.has_sequence,
        r.parameters@ == seq![0x04u32],
{
    Command {
        opcode: KINECT_CMD_READ_DATA_PAGE,
        expected_send_size: 0x1C0000,
        expected_reply_size: RGB_PARAMS_RESPONSE_SIZE,
        has_sequence: true,
        parameters: params1(0x04),
    }
}

/// Queries one device status word, selected by `status`.
pub fn read_status_command(status: u32) -> (r: Command)
    ensures
        r.opcode == 0x16,
        r.expected_send_size == 4,
        r.expected_reply_size == 4,
        r.has_sequence,
        r.parameters@ == seq![status],
{
    Command {
        opcode: KINECT_CMD_READ_STATUS,
        expected_send_size: 0x04,
        expected_reply_size: 0x04,
        has_sequence: true,
        parameters: params1(status),
    }
}

/// Starts or stops streaming. The flag crosses the wire as 1 or 0.
pub fn set_stream_state_command(enabled: bool) -> (r: Command)
    ensures
        r.opcode == 0x2b,
        r.expected_send_size == 0,
        r.expected_reply_size == 0,
        r.has_sequence,
        r.parameters@ == seq![if enabled { 1u32 } else { 0u32 }],
{
    let flag: u32 = if enabled { 1 } else { 0 };
    Command {
        opcode: KINECT_CMD_SET_STREAMING,
        expected_send_size: 0,
        expected_reply_size: 0,
        has_sequence: true,
        parameters: params1(flag),
    }
}

/// Stops the device's active work.
pub fn stop_command() -> (r: Command)
    ensures
        r.opcode == 0x0a,
        r.expected_send_size == 0,
        r.expected_reply_size == 0,
        r.has_sequence,
        r.parameters@ == Seq::<u32>::empty(),
{
    Command {
        opcode: KINECT_CMD_STOP,
        expected_send_size: 0,
        expected_reply_size: 0,
        has_sequence: true,
        parameters: params0(),
    }
}

/// Shuts the device down.
pub fn shutdown_command() -> (r: Command)
    ensures
        r.opcode == 0x00,
        r.expected_send_size == 0,
        r.expected_reply_size == 0,
        r.has_sequence,
        r.parameters@ == Seq::<u32>::empty(),
{
    Command {
        opcode: KINECT_CMD_SHUTDOWN,
        expected_send_size: 0,
        expected_reply_size: 0,
        has_sequence: true,
        parameters: params0(),
    }
}

/// Selects a device mode. The enable flag crosses the wire as 1 or 0; the
/// last two parameter words are reserved and always zero.
pub fn set_mode_command(enabled: bool, mode: u32) -> (r: Command)
    ensures
        r.opcode == 0x4b,
        r.expected_send_size == 0,
        r.expected_reply_size == 0,
        r.has_sequence,
        r.parameters@ == seq![if enabled { 1u32 } else { 0u32 }, mode, 0u32, 0u32],
{
    let flag: u32 = if enabled { 1 } else { 0 };
    Command {
        opcode: KINECT_CMD_SET_MODE,
        expected_send_size: 0,
        expected_reply_size: 0,
        has_sequence: true,
        parameters: params4(flag, mode, 0, 0),
    }
}

/// Writes one integer-valued colour-camera setting, selected by `command`.
/// Settings commands are fire-and-forget: the device does not tag their
/// replies with a sequence number.
pub fn u32_color_setting_command(command: u32, value: u32) -> (r: Command)
    ensures
        r.opcode == 0x3e,
        r.expected_send_size == 4 * 4,
        r.expected_reply_size == 4 * 4,
        !r.has_sequence,
        r.parameters@ == seq![1u32, 0u32, command, value],
{
    Command {
        opcode: KINECT_CMD_RGB_SETTING,
        expected_send_size: COLOR_SETTING_RESPONSE_SIZE,
        expected_reply_size: COLOR_SETTING_RESPONSE_SIZE,
        has_sequence: false,
        parameters: params4(1, 0, command, value),
    }
}

/// Configuration of one of the device's LEDs, as the command layer reads
/// it: an LED id, a blink mode, the brightness levels the blink moves
/// between, and the blink interval in whole milliseconds.
#[derive(Debug, Clone, Copy, PartialEq, Eq, Structural)]
pub struct LedSettings {
    /// Which LED the setting addresses.
    pub id: u16,
    /// The LED's blink mode.
    pub mode: u16,
    /// Brightness level at the start of a blink interval.
    pub start_level: u16,
    /// Brightness level at the end of a blink interval.
    pub stop_level: u16,
    /// Blink interval in milliseconds.
    pub interval_ms: u32,
}

/// A parameter word holding `lo` in its low 16 bits and `hi` in its high
/// 16 bits.
pub open spec fn pack_u16_pair(lo: u16, hi: u16) -> u32 {
    (lo as u32) | ((hi as u32) << 16)
}

/// Packing law: the two halves of a packed parameter word recover exactly
/// the two 16-bit values that went in, for all such values.
pub proof fn lemma_pack_u16_pair(lo: u16, hi: u16)
    ensures
        pack_u16_pair(lo, hi) & 0xFFFF == lo as u32,
        pack_u16_pair(lo, hi) >> 16 == hi as u32,
{
    assert(((lo as u32) | ((hi as u32) << 16)) & 0xFFFF == lo as u32) by (bit_vector);
    assert(((lo as u32) | ((hi as u32) << 16)) >> 16 == hi as u32) by (bit_vector);
}

/// Applies an LED setting. Word 1 packs the LED id (low half) with the
/// mode (high half); word 2 packs the start level (low half) with the stop
/// level (high half); word 3 is the interval in milliseconds; word 4 is
/// reserved as zero. Like the colour settings, this is fire-and-forget.
pub fn led_setting_command(led_settings: LedSettings) -> (r: Command)
    ensures
        r.opcode == 0x4b,
        r.expected_send_size == 0,
        r.expected_reply_size == 0,
        !r.has_sequence,
        r.parameters@ == seq![
            pack_u16_pair(led_settings.id, led_settings.mode),
            pack_u16_pair(led_settings.start_level, led_settings.stop_level),
            led_settings.interval_ms,
            0u32,
        ],
{
    let word1: u32 = (led_settings.id as u32) | ((led_settings.mode as u32) << 16u32);
    let word2: u32 = (led_settings.start_level as u32) | ((led_settings.stop_level as u32)
        << 16u32);
    Command {
        opcode: KINECT_CMD_SET_MODE,
        expected_send_size: 0,
        expected_reply_size: 0,
        has_sequence: false,
        parameters: params4(word1, word2, led_settings.interval_ms, 0),
    }
}

} // verus!
