//! LCD protocol definitions and packet encoding.
//!
//! Every packet is one HID report of `BUFFER_SIZE` bytes: a report byte
//! (0), an 8-byte header starting with the signature byte 0x55 and the
//! command byte (0xA1 config, 0xA2 refresh, 0xA3 redraw), then up to 4096
//! bytes of big-endian RGB565 pixel data.

use vstd::prelude::*;

verus! {

/// Total buffer size including the report byte.
pub const BUFFER_SIZE: usize = 4105;

/// Header size (excluding the report byte).
pub const HEADER_SIZE: usize = 8;

/// Data payload size.
pub const DATA_SIZE: usize = 4096;

/// Report byte size (HID report ID).
pub const REPORT_SIZE: usize = 1;

/// Protocol signature byte.
pub const LCD_SIGNATURE: u8 = 0x55;

/// Number of chunks for a full screen redraw.
pub const CHUNK_COUNT: usize = 27;

/// Size of the final chunk (320 * 170 * 2 = 108800; 108800 % 4096 = 2304).
pub const FINAL_CHUNK_SIZE: usize = 2304;

/// LCD command types.
#[derive(Debug, Clone, Copy, PartialEq, Eq, Structural)]
pub enum Command {
    /// Configuration commands (orientation, heartbeat).
    Config,
    /// Partial screen refresh.
    Refresh,
    /// Full screen redraw.
    Redraw,
}

/// LCD sub-commands for the Config command.
#[derive(Debug, Clone, Copy, PartialEq, Eq, Structural)]
pub enum SubCommand {
    /// Set display orientation.
    Orientation,
    /// Heartbeat with time (keeps the device alive).
    SetTime,
}

/// Redraw sub-commands.
#[derive(Debug, Clone, Copy, PartialEq, Eq, Structural)]
pub enum RedrawPhase {
    /// First chunk of a redraw.
    Start,
    /// Middle chunks of a redraw.
    Continue,
    /// Final chunk of a redraw.
    End,
}

/// Wire byte of a command.
pub open spec fn command_byte(c: Command) -> u8 {
    match c {
        Command::Config => 0xA1,
        Command::Refresh => 0xA2,
        Command::Redraw => 0xA3,
    }
}

/// Wire byte of a config sub-command.
pub open spec fn sub_command_byte(c: SubCommand) -> u8 {
    match c {
        SubCommand::Orientation => 0xF1,
        SubCommand::SetTime => 0xF2,
    }
}

/// Wire byte of a redraw phase.
pub open spec fn redraw_phase_byte(p: RedrawPhase) -> u8 {
    match p {
        RedrawPhase::Start => 0xF0,
        RedrawPhase::Continue => 0xF1,
        RedrawPhase::End => 0xF2,
    }
}

impl Command {
    /// The byte that identifies the command on the wire.
    pub fn byte(&self) -> (b: u8)
        ensures
            b == command_byte(*self),
    {
        match self {
            Command::Config => 0xA1,
            Command::Refresh => 0xA2,
            Command::Redraw => 0xA3,
        }
    }
}

impl SubCommand {
    /// The byte that identifies the sub-command on the wire.
    pub fn byte(&self) -> (b: u8)
        ensures
            b == sub_command_byte(*self),
    {
        match self {
            SubCommand::Orientation => 0xF1,
            SubCommand::SetTime => 0xF2,
        }
    }
}

impl RedrawPhase {
    /// The byte that identifies the phase on the wire.
    pub fn byte(&self) -> (b: u8)
        ensures
            b == redraw_phase_byte(*self),
    {
        match self {
            RedrawPhase::Start => 0xF0,
            RedrawPhase::Continue => 0xF1,
            RedrawPhase::End => 0xF2,
        }
    }
}

/// A packet whose bytes are given by `f`, zero outside `1..=k`.
pub open spec fn header_packet(b1: u8, b2: u8, b3: u8, b4: u8, b5: u8, b6: u8) -> Seq<u8> {
    Seq::new(
        BUFFER_SIZE as nat,
        |k: int|
            if k == 1 {
                b1
            } else if k == 2 {
                b2
            } else if k == 3 {
                b3
            } else if k == 4 {
                b4
            } else if k == 5 {
                b5
            } else if k == 6 {
                b6
            } else {
                0u8
            },
    )
}

/// The orientation packet.
pub open spec fn orientation_packet(portrait: bool) -> Seq<u8> {
    header_packet(
        LCD_SIGNATURE,
        command_byte(Command::Config),
        sub_command_byte(SubCommand::Orientation),
        if portrait { 0x02u8 } else { 0x01u8 },
        0,
        0,
    )
}

/// The heartbeat (set time) packet.
pub open spec fn heartbeat_packet(hours: u8, minutes: u8, seconds: u8) -> Seq<u8> {
    header_packet(
        LCD_SIGNATURE,
        command_byte(Command::Config),
        sub_command_byte(SubCommand::SetTime),
        hours,
        minutes,
        seconds,
    )
}

/// High byte of a 16-bit pixel (sent first).
pub open spec fn hi(p: u16) -> u8 {
    (p / 256) as u8
}

/// Low byte of a 16-bit pixel.
pub open spec fn lo(p: u16) -> u8 {
    (p % 256) as u8
}

/// The byte at position `k >= 9` of a data area that holds `pixels`
/// big-endian from position 9 on, or `default` where no pixel lands.
pub open spec fn data_byte(pixels: Seq<u16>, k: int, default: u8) -> u8 {
    let i = (k - 9) / 2;
    if 0 <= i < pixels.len() {
        if (k - 9) % 2 == 0 {
            hi(pixels[i])
        } else {
            lo(pixels[i])
        }
    } else {
        default
    }
}

/// The partial refresh packet.
pub open spec fn refresh_packet(x: u16, y: u16, width: u8, height: u8, pixels: Seq<u16>) -> Seq<
    u8,
> {
    Seq::new(
        BUFFER_SIZE as nat,
        |k: int|
            if k == 1 {
                LCD_SIGNATURE
            } else if k == 2 {
                command_byte(Command::Refresh)
            } else if k == 3 {
                lo(x)
            } else if k == 4 {
                hi(x)
            } else if k == 5 {
                lo(y)
            } else if k == 6 {
                hi(y)
            } else if k == 7 {
                width
            } else if k == 8 {
                height
            } else if k >= 9 {
                data_byte(pixels, k, 0)
            } else {
                0u8
            },
    )
}

/// Phase of a redraw chunk.
pub open spec fn chunk_phase(chunk_index: nat) -> RedrawPhase {
    if chunk_index == 0 {
        RedrawPhase::Start
    } else if chunk_index == CHUNK_COUNT - 1 {
        RedrawPhase::End
    } else {
        RedrawPhase::Continue
    }
}

/// Payload size of a redraw chunk in bytes.
pub open spec fn chunk_payload_size(chunk_index: nat) -> nat {
    if chunk_index == CHUNK_COUNT - 1 {
        FINAL_CHUNK_SIZE as nat
    } else {
        DATA_SIZE as nat
    }
}

/// The pixels a redraw chunk carries: those of the image from
/// `offset` on, at most half the chunk size of them.
pub open spec fn chunk_pixels(chunk_index: nat, pixels: Seq<u16>, offset: nat) -> Seq<u16> {
    let count = chunk_payload_size(chunk_index) / 2;
    if offset >= pixels.len() {
        Seq::empty()
    } else if offset + count <= pixels.len() {
        pixels.subrange(offset as int, (offset + count) as int)
    } else {
        pixels.subrange(offset as int, pixels.len() as int)
    }
}

/// A redraw chunk packet. The header's chunk-size low byte at position 9
/// (always zero: both chunk sizes are multiples of 256) is shared with the
/// data area, whose first byte overwrites it when the chunk carries a pixel.
pub open spec fn redraw_chunk(chunk_index: nat, pixels: Seq<u16>, offset: nat) -> Seq<u8> {
    let byte_offset = offset * 2;
    let size = chunk_payload_size(chunk_index);
    Seq::new(
        BUFFER_SIZE as nat,
        |k: int|
            if k == 1 {
                LCD_SIGNATURE
            } else if k == 2 {
                command_byte(Command::Redraw)
            } else if k == 3 {
                redraw_phase_byte(chunk_phase(chunk_index))
            } else if k == 4 {
                ((chunk_index + 1) % 256) as u8
            } else if k == 6 {
                ((byte_offset / 256) % 256) as u8
            } else if k == 7 {
                (byte_offset % 256) as u8
            } else if k == 8 {
                (size / 256) as u8
            } else if k >= 9 {
                data_byte(chunk_pixels(chunk_index, pixels, offset), k, 0)
            } else {
                0u8
            },
    )
}

/// Builds an orientation command packet.
pub fn build_orientation_packet(portrait: bool) -> (p: [u8; BUFFER_SIZE])
    ensures
        p@ == orientation_packet(portrait),
{
    let mut buffer = [0u8; BUFFER_SIZE];
    buffer[1] = LCD_SIGNATURE;
    buffer[2] = Command::Config.byte();
    buffer[3] = SubCommand::Orientation.byte();
    buffer[4] = if portrait { 0x02 } else { 0x01 };
    assert(buffer@ =~= orientation_packet(portrait));
    buffer
}

/// Builds a heartbeat (set time) command packet.
pub fn build_heartbeat_packet(hours: u8, minutes: u8, seconds: u8) -> (p: [u8; BUFFER_SIZE])
    ensures
        p@ == heartbeat_packet(hours, minutes, seconds),
{
    let mut buffer = [0u8; BUFFER_SIZE];
    buffer[1] = LCD_SIGNATURE;
    buffer[2] = Command::Config.byte();
    buffer[3] = SubCommand::SetTime.byte();
    buffer[4] = hours;
    buffer[5] = minutes;
    buffer[6] = seconds;
    assert(buffer@ =~= heartbeat_packet(hours, minutes, seconds));
    buffer
}

/// Builds a partial refresh command packet: position little-endian,
/// dimensions, then as many pixels as fit, big-endian.
pub fn build_refresh_packet(x: u16, y: u16, width: u8, height: u8, pixel_data: &[u16]) -> (p: [u8;
    BUFFER_SIZE])
    ensures
        p@ == refresh_packet(x, y, width, height, pixel_data@),
{
    let mut buffer = [0u8; BUFFER_SIZE];
    buffer[1] = LCD_SIGNATURE;
    buffer[2] = Command::Refresh.byte();
    buffer[3] = (x & 0xFF) as u8;
    buffer[4] = (x >> 8) as u8;
    buffer[5] = (y & 0xFF) as u8;
    buffer[6] = (y >> 8) as u8;
    buffer[7] = width;
    buffer[8] = height;
    proof {
        assert((x & 0xFF) as u8 == (x % 256) as u8) by (bit_vector);
        assert((x >> 8) as u8 == (x / 256) as u8) by (bit_vector);
        assert((y & 0xFF) as u8 == (y % 256) as u8) by (bit_vector);
        assert((y >> 8) as u8 == (y / 256) as u8) by (bit_vector);
    }
    let ghost target = refresh_packet(x, y, width, height, pixel_data@);
    let data_start = REPORT_SIZE + HEADER_SIZE;
    let n: usize = if pixel_data.len() < 2048 { pixel_data.len() } else { 2048 };
    let mut i: usize = 0;
    while i < n
        invariant
            n <= pixel_data@.len(),
            n <= 2048,
            n == pixel_data@.len() || n == 2048,
            i <= n,
            data_start == 9,
            target == refresh_packet(x, y, width, height, pixel_data@),
            forall|k: int| 0 <= k < 9 + 2 * i ==> buffer@[k] == target[k],
            forall|k: int| 9 + 2 * i <= k < BUFFER_SIZE ==> buffer@[k] == 0,
        decreases n - i,
    {
        let pixel = pixel_data[i];
        let offset = data_start + i * 2;
        buffer[offset] = (pixel >> 8) as u8;
        buffer[offset + 1] = (pixel & 0xFF) as u8;
        proof {
            assert((pixel & 0xFF) as u8 == (pixel % 256) as u8) by (bit_vector);
            assert((pixel >> 8) as u8 == (pixel / 256) as u8) by (bit_vector);
            assert forall|k: int| 0 <= k < 9 + 2 * (i + 1) implies buffer@[k] == target[k] by {
                if k >= 9 + 2 * i {
                    assert((k - 9) / 2 == i as int);
                }
            }
        }
        i = i + 1;
    }
    assert(buffer@ =~= target);
    buffer
}

/// Builds one chunk packet of a full screen redraw. Chunk `chunk_index`
/// (0-based) carries the image pixels from `offset_in_image` on.
pub fn build_redraw_chunk(chunk_index: usize, pixel_data: &[u16], offset_in_image: usize) -> (p: [u8;
    BUFFER_SIZE])
    requires
        chunk_index < usize::MAX,
        offset_in_image <= usize::MAX / 2,
    ensures
        p@ == redraw_chunk(chunk_index as nat, pixel_data@, offset_in_image as nat),
{
    let mut buffer = [0u8; BUFFER_SIZE];
    buffer[1] = LCD_SIGNATURE;
    buffer[2] = Command::Redraw.byte();
    let phase = if chunk_index == 0 {
        RedrawPhase::Start
    } else if chunk_index == CHUNK_COUNT - 1 {
        RedrawPhase::End
    } else {
        RedrawPhase::Continue
    };
    buffer[3] = phase.byte();
    let seq_no: usize = chunk_index + 1;
    buffer[4] = seq_no as u8;
    let byte_offset: usize = offset_in_image * 2;
    buffer[5] = 0;
    buffer[6] = (byte_offset >> 8) as u8;
    buffer[7] = (byte_offset & 0xFF) as u8;
    let chunk_size: usize = if chunk_index == CHUNK_COUNT - 1 {
        FINAL_CHUNK_SIZE
    } else {
        DATA_SIZE
    };
    buffer[8] = (chunk_size >> 8) as u8;
    buffer[9] = (chunk_size & 0xFF) as u8;
    proof {
        assert(seq_no as u8 == (seq_no % 256) as u8) by (bit_vector);
        assert((byte_offset >> 8) as u8 == ((byte_offset / 256) % 256) as u8) by (bit_vector);
        assert((byte_offset & 0xFF) as u8 == (byte_offset % 256) as u8) by (bit_vector);
        assert((chunk_size >> 8) as u8 == (chunk_size / 256) as u8) by (bit_vector)
            requires
                chunk_size == 4096 || chunk_size == 2304,
        ;
        assert((chunk_size & 0xFF) as u8 == 0) by (bit_vector)
            requires
                chunk_size == 4096 || chunk_size == 2304,
        ;
    }
    let ghost target = redraw_chunk(chunk_index as nat, pixel_data@, offset_in_image as nat);
    let ghost chunk = chunk_pixels(chunk_index as nat, pixel_data@, offset_in_image as nat);
    assert(chunk_size == chunk_payload_size(chunk_index as nat));
    let pixel_count = chunk_size / 2;
    let data_start = REPORT_SIZE + HEADER_SIZE;
    let mut i: usize = 0;
    while i < pixel_count
        invariant
            pixel_count == chunk_payload_size(chunk_index as nat) / 2,
            pixel_count <= 2048,
            i <= pixel_count,
            data_start == 9,
            offset_in_image <= usize::MAX / 2,
            target == redraw_chunk(chunk_index as nat, pixel_data@, offset_in_image as nat),
            chunk == chunk_pixels(chunk_index as nat, pixel_data@, offset_in_image as nat),
            forall|k: int| 0 <= k < 9 ==> buffer@[k] == target[k],
            forall|k: int| 9 <= k < 9 + 2 * i ==> buffer@[k] == target[k],
            forall|k: int| 9 + 2 * i <= k < BUFFER_SIZE ==> buffer@[k] == 0,
        decreases pixel_count - i,
    {
        let pixel_idx = offset_in_image + i;
        if pixel_idx < pixel_data.len() {
            let pixel = pixel_data[pixel_idx];
            let offset = data_start + i * 2;
            buffer[offset] = (pixel >> 8) as u8;
            buffer[offset + 1] = (pixel & 0xFF) as u8;
            proof {
                assert((pixel & 0xFF) as u8 == (pixel % 256) as u8) by (bit_vector);
                assert((pixel >> 8) as u8 == (pixel / 256) as u8) by (bit_vector);
                assert(chunk[i as int] == pixel);
            }
        }
        proof {
            assert forall|k: int| 9 <= k < 9 + 2 * (i + 1) implies buffer@[k] == target[k] by {
                if k >= 9 + 2 * i {
                    assert((k - 9) / 2 == i as int);
                }
            }
        }
        i = i + 1;
    }
    assert forall|k: int| 0 <= k < BUFFER_SIZE implies buffer@[k] == target[k] by {
        if k >= 9 + 2 * pixel_count {
            assert((k - 9) / 2 >= pixel_count);
        }
    }
    assert(buffer@ =~= target);
    buffer
}

/// Of the 27 chunks of a full redraw, only the first announces a new
/// frame (phase byte 0xF0) and only the last ends it (0xF2); every chunk
/// between continues it (0xF1).
pub proof fn law_redraw_phase_bytes(chunk_index: nat, pixels: Seq<u16>, offset: nat)
    requires
        chunk_index < 27,
    ensures
        chunk_index == 0 ==> redraw_chunk(chunk_index, pixels, offset)[3] == 0xF0u8,
        0 < chunk_index < 26 ==> redraw_chunk(chunk_index, pixels, offset)[3] == 0xF1u8,
        chunk_index == 26 ==> redraw_chunk(chunk_index, pixels, offset)[3] == 0xF2u8,
{
}

} // verus!
