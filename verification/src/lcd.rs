//! What the LCD controller sends: the packet sequences for orientation
//! changes, heartbeats, full redraws, partial refreshes and clears, and
//! the orientation it has last set. The program that owns the USB HID
//! device writes these packets in order.

use vstd::prelude::*;
use crate::framebuffer::{Framebuffer, PIXEL_COUNT};
use crate::orientation::{rotated_image, spec_is_portrait, spec_needs_rotation, Orientation};
use crate::protocol::{chunk_pixels, hi, lo, 
    build_heartbeat_packet, build_orientation_packet, build_redraw_chunk, build_refresh_packet,
    heartbeat_packet, orientation_packet, redraw_chunk, refresh_packet, BUFFER_SIZE, CHUNK_COUNT,
    DATA_SIZE,
};

verus! {

/// Hours, minutes and seconds (UTC) of a Unix timestamp.
pub open spec fn utc_time_of_day(secs: u64) -> (u8, u8, u8) {
    (((secs / 3600) % 24) as u8, ((secs / 60) % 60) as u8, (secs % 60) as u8)
}

/// The pixels as the device receives them: rotated by 180 degrees when
/// the orientation is rendered in software.
pub open spec fn device_pixels(pixels: Seq<u16>, width: u16, height: u16, o: Orientation) -> Seq<u16> {
    if spec_needs_rotation(o) {
        rotated_image(
            pixels,
            if width as int * height as int <= pixels.len() {
                width as int * height as int
            } else {
                pixels.len() as int
            },
        )
    } else {
        pixels
    }
}

/// The chunk packets of a full redraw of `pixels`.
pub open spec fn redraw_sequence(pixels: Seq<u16>) -> Seq<Seq<u8>> {
    Seq::new(
        CHUNK_COUNT as nat,
        |i: int| redraw_chunk(i as nat, pixels, (i * (DATA_SIZE as int / 2)) as nat),
    )
}

/// Splits a Unix timestamp into UTC hours, minutes and seconds.
pub fn utc_time(secs: u64) -> (t: (u8, u8, u8))
    ensures
        t == utc_time_of_day(secs),
{
    let hours = ((secs / 3600) % 24) as u8;
    let minutes = ((secs / 60) % 60) as u8;
    let seconds = (secs % 60) as u8;
    (hours, minutes, seconds)
}

/// Copies a pixel slice into a new vector.
fn copy_pixels(pixels: &[u16]) -> (v: Vec<u16>)
    ensures
        v@ == pixels@,
{
    let mut v: Vec<u16> = Vec::with_capacity(pixels.len());
    let mut i: usize = 0;
    while i < pixels.len()
        invariant
            i <= pixels@.len(),
            v@ == pixels@.take(i as int),
        decreases pixels@.len() - i,
    {
        v.push(pixels[i]);
        assert(v@ =~= pixels@.take(i + 1));
        i = i + 1;
    }
    assert(pixels@.take(pixels@.len() as int) =~= pixels@);
    v
}

/// The LCD controller's own state: the orientation it was last set to.
pub struct LcdPanel {
    current_orientation: Orientation,
}

impl View for LcdPanel {
    /// The current orientation.
    type V = Orientation;

    closed spec fn view(&self) -> Orientation {
        self.current_orientation
    }
}

impl LcdPanel {
    /// A controller in the default (landscape) orientation.
    pub fn new() -> (p: LcdPanel)
        ensures
            p@ == Orientation::Landscape,
    {
        LcdPanel { current_orientation: Orientation::Landscape }
    }

    /// The current orientation.
    pub fn orientation(&self) -> (o: Orientation)
        ensures
            o == self@,
    {
        self.current_orientation
    }

    /// The packet that selects the hardware orientation for `o`.
    pub fn orientation_packet(o: Orientation) -> (p: [u8; BUFFER_SIZE])
        ensures
            p@ == orientation_packet(spec_is_portrait(o)),
    {
        build_orientation_packet(o.is_portrait())
    }

    /// Records that the device now shows orientation `o` (after its
    /// orientation packet was written).
    pub fn set_orientation(&mut self, o: Orientation)
        ensures
            final(self)@ == o,
    {
        self.current_orientation = o;
    }

    /// The heartbeat packet for an explicit time.
    pub fn heartbeat_with_time(hours: u8, minutes: u8, seconds: u8) -> (p: [u8; BUFFER_SIZE])
        ensures
            p@ == heartbeat_packet(hours, minutes, seconds),
    {
        build_heartbeat_packet(hours, minutes, seconds)
    }

    /// The heartbeat packet for a Unix timestamp (UTC time of day).
    pub fn heartbeat(secs: u64) -> (p: [u8; BUFFER_SIZE])
        ensures
            p@ == heartbeat_packet(
                utc_time_of_day(secs).0,
                utc_time_of_day(secs).1,
                utc_time_of_day(secs).2,
            ),
    {
        let (h, m, s) = utc_time(secs);
        build_heartbeat_packet(h, m, s)
    }

    /// The packets of a full screen redraw of `framebuffer`, in sending
    /// order, rotated in software when the current orientation asks.
    pub fn redraw(&self, framebuffer: &Framebuffer) -> (packets: Vec<[u8; BUFFER_SIZE]>)
        requires
            framebuffer.wf(),
        ensures
            packets@.len() == CHUNK_COUNT,
            forall|i: int|
                0 <= i < CHUNK_COUNT ==> (#[trigger] packets@[i])@ == redraw_sequence(
                    device_pixels(
                        framebuffer@.pixels,
                        framebuffer@.width,
                        framebuffer@.height,
                        self@,
                    ),
                )[i],
    {
        let mut data = copy_pixels(framebuffer.data());
        let ghost prepared = device_pixels(
            framebuffer@.pixels,
            framebuffer@.width,
            framebuffer@.height,
            self@,
        );
        proof {
            framebuffer.lemma_size();
        }
        if self.current_orientation.needs_rotation() {
            Orientation::rotate_180(data.as_mut_slice(), framebuffer.width(), framebuffer.height());
        }
        assert(data@ == prepared);
        let mut packets: Vec<[u8; BUFFER_SIZE]> = Vec::new();
        let mut chunk_idx: usize = 0;
        while chunk_idx < CHUNK_COUNT
            invariant
                chunk_idx <= CHUNK_COUNT,
                data@ == prepared,
                packets@.len() == chunk_idx,
                forall|i: int|
                    0 <= i < chunk_idx ==> (#[trigger] packets@[i])@ == redraw_sequence(
                        prepared,
                    )[i],
            decreases CHUNK_COUNT - chunk_idx,
        {
            let offset = chunk_idx * (DATA_SIZE / 2);
            let packet = build_redraw_chunk(chunk_idx, data.as_slice(), offset);
            packets.push(packet);
            chunk_idx = chunk_idx + 1;
        }
        packets
    }

    /// The packet of a partial refresh of a `width` x `height` region at
    /// (`x`, `y`), rotated in software when the current orientation asks.
    pub fn refresh(&self, x: u16, y: u16, width: u8, height: u8, pixels: &[u16]) -> (p: [u8;
        BUFFER_SIZE])
        requires
            !spec_needs_rotation(self@) || width as int * height as int <= pixels@.len()
                || width as int * height as int == 1,
        ensures
            p@ == refresh_packet(
                x,
                y,
                width,
                height,
                device_pixels(pixels@, width as u16, height as u16, self@),
            ),
    {
        let mut data = copy_pixels(pixels);
        if self.current_orientation.needs_rotation() {
            Orientation::rotate_180(data.as_mut_slice(), width as u16, height as u16);
        }
        build_refresh_packet(x, y, width, height, data.as_slice())
    }

    /// The packets that clear the display to a solid colour: a full
    /// redraw of a 320x170 framebuffer of that colour.
    pub fn clear(&self, color: u16) -> (packets: Vec<[u8; BUFFER_SIZE]>)
        ensures
            packets@.len() == CHUNK_COUNT,
            forall|i: int|
                0 <= i < CHUNK_COUNT ==> (#[trigger] packets@[i])@ == redraw_sequence(
                    device_pixels(
                        Seq::new(crate::framebuffer::PIXEL_COUNT as nat, |k: int| color),
                        crate::LCD_WIDTH,
                        crate::LCD_HEIGHT,
                        self@,
                    ),
                )[i],
    {
        let mut fb = Framebuffer::new();
        fb.clear(color);
        self.redraw(&fb)
    }
}

/// A full redraw of a full-screen image sends every pixel, in order and
/// big-endian: pixel `p` is the `p % 2048`-th pixel of chunk `p / 2048`.
pub proof fn law_redraw_sends_every_pixel(pixels: Seq<u16>, p: int)
    requires
        pixels.len() == PIXEL_COUNT,
        0 <= p < PIXEL_COUNT,
    ensures
        redraw_sequence(pixels)[p / 2048][9 + 2 * (p % 2048)] == hi(pixels[p]),
        redraw_sequence(pixels)[p / 2048][10 + 2 * (p % 2048)] == lo(pixels[p]),
{
    let c = p / 2048;
    let j = p % 2048;
    let offset = (c * 2048) as nat;
    assert(0 <= c < 27);
    assert(c * 2048 + j == p);
    let cp = chunk_pixels(c as nat, pixels, offset);
    if c < 26 {
        assert(cp == pixels.subrange(offset as int, offset as int + 2048));
    } else {
        assert(cp == pixels.subrange(offset as int, offset as int + 1152));
        assert(j < 1152);
    }
    assert(cp[j] == pixels[p]);
    assert((9 + 2 * j - 9) / 2 == j && (9 + 2 * j - 9) % 2 == 0);
    assert((10 + 2 * j - 9) / 2 == j && (10 + 2 * j - 9) % 2 == 1);
}

/// HID interface number of the display data.
pub const LCD_INTERFACE: i32 = 0;

/// Which of the matching HID devices to open: the first on the display
/// interface, else the first one; `None` when there is none.
pub fn pick_hid_interface(interfaces: &[i32]) -> (r: Option<usize>)
    ensures
        interfaces@.len() == 0 ==> r is None,
        interfaces@.len() > 0 ==> match r {
            Some(i) => i < interfaces@.len() && (if exists|j: int|
                0 <= j < interfaces@.len() && interfaces@[j] == LCD_INTERFACE {
                interfaces@[i as int] == LCD_INTERFACE && forall|j: int|
                    0 <= j < i ==> interfaces@[j] != LCD_INTERFACE
            } else {
                i == 0
            }),
            None => false,
        },
{
    let mut i: usize = 0;
    while i < interfaces.len()
        invariant
            i <= interfaces@.len(),
            forall|j: int| 0 <= j < i ==> interfaces@[j] != LCD_INTERFACE,
        decreases interfaces@.len() - i,
    {
        if interfaces[i] == LCD_INTERFACE {
            return Some(i);
        }
        i = i + 1;
    }
    if interfaces.len() > 0 {
        Some(0)
    } else {
        None
    }
}

} // verus!
