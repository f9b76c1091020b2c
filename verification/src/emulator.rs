use vstd::prelude::*;

verus! {

/// Microseconds per frame of a Nintendo DS at normal speed (60 Hz).
pub const NDS_DEFAULT_MICROSECONDS_PER_FRAME: u64 = 16666;

/// Microseconds per frame of a Game Boy Advance at normal speed (~59.7 Hz).
pub const GBA_DEFAULT_MICROSECONDS_PER_FRAME: u64 = 16742;

/// The number of frames that the pacing reference may lag behind the clock.
pub const MAX_FRAMES_BEHIND: u64 = 16;

/// Real-time pacing of an emulator that runs one frame per call.
///
/// A frame may run once the clock reaches `last_frame_microseconds +
/// microseconds_per_frame`; after a frame the reference advances by one
/// frame, but never lags more than [`MAX_FRAMES_BEHIND`] frames behind the
/// clock.
#[derive(Copy, Clone, Debug)]
pub struct FramePacer {
    pub last_frame_microseconds: u64,
    pub microseconds_per_frame: u64,
}

impl FramePacer {
    /// The frame length always fits in 32 bits (speed changes clamp it).
    pub open spec fn wf(&self) -> bool {
        self.microseconds_per_frame <= u32::MAX
    }

    /// The clock time from which the next frame may run.
    pub open spec fn next_deadline(&self) -> int {
        self.last_frame_microseconds + self.microseconds_per_frame
    }

    /// A pacer that lets the first frame run once `microseconds_per_frame`
    /// has passed on the clock.
    pub fn new(microseconds_per_frame: u64) -> (r: FramePacer)
        requires
            microseconds_per_frame <= u32::MAX,
        ensures
            r.wf(),
            r.last_frame_microseconds == 0,
            r.microseconds_per_frame == microseconds_per_frame,
    {
        FramePacer { last_frame_microseconds: 0, microseconds_per_frame }
    }

    /// Return `true` if a frame may run at clock time `now`.
    pub fn is_frame_due(&self, now: u64) -> (r: bool)
        requires
            self.next_deadline() <= u64::MAX,
        ensures
            r == (now >= self.next_deadline()),
    {
        now >= self.last_frame_microseconds + self.microseconds_per_frame
    }

    /// Advance the reference after a frame has run; `now` is the clock time
    /// after the frame.
    pub fn finish_frame(&mut self, now: u64)
        requires
            old(self).wf(),
            old(self).next_deadline() <= u64::MAX,
        ensures
            final(self).wf(),
            final(self).microseconds_per_frame == old(self).microseconds_per_frame,
            final(self).last_frame_microseconds == vstd::math::max(
                old(self).next_deadline(),
                vstd::math::max(0, now - MAX_FRAMES_BEHIND * old(self).microseconds_per_frame),
            ),
    {
        let next = self.last_frame_microseconds + self.microseconds_per_frame;
        let several_frames_ago = now.saturating_sub(self.microseconds_per_frame * MAX_FRAMES_BEHIND);
        self.last_frame_microseconds = if next >= several_frames_ago { next } else { several_frames_ago };
    }

    /// Change the length of a frame.
    pub fn set_microseconds_per_frame(&mut self, microseconds_per_frame: u64)
        requires
            microseconds_per_frame <= u32::MAX,
        ensures
            final(self).wf(),
            final(self).microseconds_per_frame == microseconds_per_frame,
            final(self).last_frame_microseconds == old(self).last_frame_microseconds,
    {
        self.microseconds_per_frame = microseconds_per_frame;
    }
}

/// Frame pacing never runs two frames within one frame length, and never lets
/// the emulator fall more than sixteen frames behind the clock.
pub proof fn law_frame_pacing(p: FramePacer, now: u64, q: FramePacer)
    requires
        p.wf(),
        p.next_deadline() <= u64::MAX,
        q.microseconds_per_frame == p.microseconds_per_frame,
        q.last_frame_microseconds == vstd::math::max(
            p.next_deadline(),
            vstd::math::max(0, now - MAX_FRAMES_BEHIND * p.microseconds_per_frame),
        ),
    ensures
        q.last_frame_microseconds >= p.last_frame_microseconds + p.microseconds_per_frame,
        q.last_frame_microseconds + MAX_FRAMES_BEHIND * q.microseconds_per_frame >= now,
{
}

/// The frame lengths and limits of the consoles: a Nintendo DS frame lasts
/// 1/60 s (16666 µs, rounded down), a Game Boy Advance frame 16742 µs
/// (about 59.7 Hz); pacing never lags more than 16 frames; the Nintendo DS
/// main RAM starts at address 0x2000000.
pub proof fn law_console_timing_and_memory_map()
    ensures
        NDS_DEFAULT_MICROSECONDS_PER_FRAME == 1000000int / 60,
        GBA_DEFAULT_MICROSECONDS_PER_FRAME == 16742,
        MAX_FRAMES_BEHIND == 16,
        NDS_MAIN_RAM_BASE == 0x2000000,
{
}

/// Copy `into.len()` bytes of `region` starting at `offset` into `into`.
///
/// Returns `false`, leaving `into` unchanged, if that range is not inside
/// `region`.
pub fn copy_from_region(region: &[u8], offset: usize, into: &mut [u8]) -> (r: bool)
    ensures
        r == (offset + old(into)@.len() <= region@.len()),
        r ==> final(into)@ == region@.subrange(offset as int, offset + old(into)@.len()),
        !r ==> final(into)@ == old(into)@,
{
    let len = into.len();
    let region_len = region.len();
    if offset > region_len || len > region_len - offset {
        return false;
    }
    let mut i: usize = 0;
    while i < len
        invariant
            len == into@.len(),
            region_len == region@.len(),
            offset + len <= region@.len(),
            i <= len,
            forall|j: int| 0 <= j < i ==> into@[j] == region@[offset + j],
        decreases len - i,
    {
        into[i] = region[offset + i];
        i = i + 1;
    }
    assert(into@ =~= region@.subrange(offset as int, offset + len));
    true
}

/// Copy `from` into `region` starting at `offset`.
///
/// Returns `false`, leaving `region` unchanged, if that range is not inside
/// `region`.
pub fn copy_into_region(region: &mut [u8], offset: usize, from: &[u8]) -> (r: bool)
    ensures
        r == (offset + from@.len() <= old(region)@.len()),
        final(region)@.len() == old(region)@.len(),
        r ==> final(region)@ == old(region)@.subrange(0, offset as int) + from@ + old(
            region,
        )@.subrange(offset + from@.len(), old(region)@.len() as int),
        !r ==> final(region)@ == old(region)@,
{
    let len = from.len();
    let region_len = region.len();
    if offset > region_len || len > region_len - offset {
        return false;
    }
    let ghost before = region@;
    let mut i: usize = 0;
    while i < len
        invariant
            len == from@.len(),
            region_len == before.len(),
            offset + len <= before.len(),
            region@.len() == before.len(),
            i <= len,
            forall|j: int| 0 <= j < i ==> region@[offset + j] == from@[j],
            forall|j: int| 0 <= j < offset ==> region@[j] == before[j],
            forall|j: int| offset + i <= j < before.len() ==> region@[j] == before[j],
        decreases len - i,
    {
        region[offset + i] = from[i];
        i = i + 1;
    }
    assert(region@ =~= before.subrange(0, offset as int) + from@ + before.subrange(
        offset + len,
        before.len() as int,
    ));
    true
}

/// Reading RAM back after a write gives the written bytes, and the write
/// leaves every other byte and the size of the RAM as they were (for the
/// Nintendo DS main RAM and for each Game Boy Advance region alike).
pub proof fn law_read_after_write(ram: Seq<u8>, offset: int, from: Seq<u8>, other: int)
    requires
        0 <= offset,
        offset + from.len() <= ram.len(),
        0 <= other < ram.len(),
        !(offset <= other < offset + from.len()),
    ensures
        ({
            let written = ram.subrange(0, offset) + from + ram.subrange(offset + from.len(), ram.len() as int);
            &&& written.len() == ram.len()
            &&& written.subrange(offset, offset + from.len()) == from
            &&& written[other] == ram[other]
        }),
{
    let written = ram.subrange(0, offset) + from + ram.subrange(offset + from.len(), ram.len() as int);
    assert(written.subrange(offset, offset + from.len()) =~= from);
}

/// Address of the first byte of the Nintendo DS main RAM.
pub const NDS_MAIN_RAM_BASE: u32 = 0x2000000;

/// Read Nintendo DS main RAM at `address` into `into`.
///
/// Fails with "no such ram address" below the main RAM, and with "out of range
/// read" if the range ends past the end of `ram`; `into` is unchanged then.
pub fn nds_read_ram(ram: &[u8], address: u32, into: &mut [u8]) -> (r: Result<(), &'static str>)
    ensures
        address < NDS_MAIN_RAM_BASE ==> (r matches Err(e) && e@ == "no such ram address"@),
        address >= NDS_MAIN_RAM_BASE && address - NDS_MAIN_RAM_BASE + old(into)@.len() > ram@.len()
            ==> (r matches Err(e) && e@ == "out of range read"@),
        address >= NDS_MAIN_RAM_BASE && address - NDS_MAIN_RAM_BASE + old(into)@.len() <= ram@.len()
            ==> r is Ok && final(into)@ == ram@.subrange(
            address - NDS_MAIN_RAM_BASE,
            address - NDS_MAIN_RAM_BASE + old(into)@.len(),
        ),
        r is Err ==> final(into)@ == old(into)@,
{
    if address < NDS_MAIN_RAM_BASE {
        return Err("no such ram address");
    }
    let offset = (address - NDS_MAIN_RAM_BASE) as usize;
    if copy_from_region(ram, offset, into) {
        Ok(())
    } else {
        Err("out of range read")
    }
}

/// Write `from` to Nintendo DS main RAM at `address`.
///
/// Fails with "no such ram address" below the main RAM, and with "out of range
/// write" if the range ends past the end of `ram`; `ram` is unchanged then.
pub fn nds_write_ram(ram: &mut [u8], address: u32, from: &[u8]) -> (r: Result<(), &'static str>)
    ensures
        final(ram)@.len() == old(ram)@.len(),
        address < NDS_MAIN_RAM_BASE ==> (r matches Err(e) && e@ == "no such ram address"@),
        address >= NDS_MAIN_RAM_BASE && address - NDS_MAIN_RAM_BASE + from@.len() > old(ram)@.len()
            ==> (r matches Err(e) && e@ == "out of range write"@),
        address >= NDS_MAIN_RAM_BASE && address - NDS_MAIN_RAM_BASE + from@.len() <= old(ram)@.len()
            ==> r is Ok && final(ram)@ == old(ram)@.subrange(0, address - NDS_MAIN_RAM_BASE) + from@
            + old(ram)@.subrange(address - NDS_MAIN_RAM_BASE + from@.len(), old(ram)@.len() as int),
        r is Err ==> final(ram)@ == old(ram)@,
{
    if address < NDS_MAIN_RAM_BASE {
        return Err("no such ram address");
    }
    let offset = (address - NDS_MAIN_RAM_BASE) as usize;
    if copy_into_region(ram, offset, from) {
        Ok(())
    } else {
        Err("out of range write")
    }
}

/// A memory region of the Game Boy Advance that can be read and written.
#[derive(Copy, Clone, Debug, PartialEq, Eq, Structural)]
pub enum GbaRamRegion {
    /// External work RAM, 0x2000000..0x2040000
    Ewram,
    /// Internal work RAM, 0x3000000..0x3008000
    Iwram,
}

/// The Game Boy Advance region holding `address` and the offset within it.
pub open spec fn spec_gba_ram_region(address: u32) -> Option<(GbaRamRegion, int)> {
    if 0x2000000 <= address < 0x2040000 {
        Some((GbaRamRegion::Ewram, address - 0x2000000))
    } else if 0x3000000 <= address < 0x3008000 {
        Some((GbaRamRegion::Iwram, address - 0x3000000))
    } else {
        None
    }
}

/// The whole of both Game Boy Advance work RAM regions can be reached, each
/// at its documented place: external work RAM (256 KiB) from 0x2000000 and
/// internal work RAM (32 KiB) from 0x3000000, the offset counting from the
/// start of the region; no other address is in either region.
pub proof fn law_gba_regions_cover_work_ram(address: u32)
    ensures
        0x2000000 <= address < 0x2000000 + 0x40000 ==> spec_gba_ram_region(address) == Some(
            (GbaRamRegion::Ewram, address - 0x2000000),
        ),
        0x3000000 <= address < 0x3000000 + 0x8000 ==> spec_gba_ram_region(address) == Some(
            (GbaRamRegion::Iwram, address - 0x3000000),
        ),
        !(0x2000000 <= address < 0x2000000 + 0x40000) && !(0x3000000 <= address < 0x3000000 + 0x8000)
            ==> spec_gba_ram_region(address) is None,
        forall|r: GbaRamRegion, o: int| spec_gba_ram_region(address) == Some((r, o)) ==> 0 <= o && (if r
            == GbaRamRegion::Ewram { o < 0x40000 } else { o < 0x8000 }),
{
}

/// Find the Game Boy Advance region holding `address` and the offset within it.
pub fn gba_ram_region(address: u32) -> (r: Option<(GbaRamRegion, usize)>)
    ensures
        r matches Some((region, offset)) ==> spec_gba_ram_region(address) == Some((region, offset as int)),
        r is None <==> spec_gba_ram_region(address) is None,
{
    if 0x2000000 <= address && address < 0x2040000 {
        Some((GbaRamRegion::Ewram, (address - 0x2000000) as usize))
    } else if 0x3000000 <= address && address < 0x3008000 {
        Some((GbaRamRegion::Iwram, (address - 0x3000000) as usize))
    } else {
        None
    }
}

/// Read `into.len()` bytes of a Game Boy Advance region starting at `offset`.
///
/// Fails with "invalid range (went outside of the region)" if the range ends
/// past the end of the region; `into` is unchanged then.
pub fn gba_read_region(region: &[u8], offset: usize, into: &mut [u8]) -> (r: Result<(), &'static str>)
    requires
        offset <= region@.len(),
    ensures
        offset + old(into)@.len() <= region@.len() ==> r is Ok && final(into)@ == region@.subrange(
            offset as int,
            offset + old(into)@.len(),
        ),
        offset + old(into)@.len() > region@.len() ==> (r matches Err(e) && e@
            == "invalid range (went outside of the region)"@) && final(into)@ == old(into)@,
{
    if copy_from_region(region, offset, into) {
        Ok(())
    } else {
        Err("invalid range (went outside of the region)")
    }
}

/// Write `from` to a Game Boy Advance region starting at `offset`.
///
/// Fails with "invalid range (went outside of the region)" if the range ends
/// past the end of the region; the region is unchanged then.
pub fn gba_write_region(region: &mut [u8], offset: usize, from: &[u8]) -> (r: Result<(), &'static str>)
    requires
        offset <= old(region)@.len(),
    ensures
        final(region)@.len() == old(region)@.len(),
        offset + from@.len() <= old(region)@.len() ==> r is Ok && final(region)@ == old(region)@.subrange(
            0,
            offset as int,
        ) + from@ + old(region)@.subrange(offset + from@.len(), old(region)@.len() as int),
        offset + from@.len() > old(region)@.len() ==> (r matches Err(e) && e@
            == "invalid range (went outside of the region)"@) && final(region)@ == old(region)@,
{
    if copy_into_region(region, offset, from) {
        Ok(())
    } else {
        Err("invalid range (went outside of the region)")
    }
}

/// Read Game Boy Advance RAM at `address` into `into`, from external work
/// RAM (`ewram`) or internal work RAM (`iwram`).
///
/// Fails with "unknown address" outside both regions, and with "invalid range
/// (went outside of the region)" if the range ends past the end of the
/// region; `into` is unchanged then.
pub fn gba_read_ram(ewram: &[u8], iwram: &[u8], address: u32, into: &mut [u8]) -> (r: Result<(), &'static str>)
    requires
        spec_gba_ram_region(address) matches Some((GbaRamRegion::Ewram, o)) ==> o <= ewram@.len(),
        spec_gba_ram_region(address) matches Some((GbaRamRegion::Iwram, o)) ==> o <= iwram@.len(),
    ensures
        spec_gba_ram_region(address) is None ==> (r matches Err(e) && e@ == "unknown address"@) && final(into)@
            == old(into)@,
        spec_gba_ram_region(address) matches Some((region, o)) ==> {
            let ram = if region == GbaRamRegion::Ewram { ewram@ } else { iwram@ };
            &&& o + old(into)@.len() <= ram.len() ==> r is Ok && final(into)@ == ram.subrange(o, o + old(into)@.len())
            &&& o + old(into)@.len() > ram.len() ==> (r matches Err(e) && e@
                == "invalid range (went outside of the region)"@) && final(into)@ == old(into)@
        },
{
    match gba_ram_region(address) {
        None => Err("unknown address"),
        Some((GbaRamRegion::Ewram, offset)) => gba_read_region(ewram, offset, into),
        Some((GbaRamRegion::Iwram, offset)) => gba_read_region(iwram, offset, into),
    }
}

/// Write `from` to Game Boy Advance RAM at `address`, in external work RAM
/// (`ewram`) or internal work RAM (`iwram`).
///
/// Fails with "unknown address" outside both regions, and with "invalid range
/// (went outside of the region)" if the range ends past the end of the
/// region; the RAM is unchanged then.
pub fn gba_write_ram(ewram: &mut [u8], iwram: &mut [u8], address: u32, from: &[u8]) -> (r: Result<(), &'static str>)
    requires
        spec_gba_ram_region(address) matches Some((GbaRamRegion::Ewram, o)) ==> o <= old(ewram)@.len(),
        spec_gba_ram_region(address) matches Some((GbaRamRegion::Iwram, o)) ==> o <= old(iwram)@.len(),
    ensures
        spec_gba_ram_region(address) is None ==> (r matches Err(e) && e@ == "unknown address"@),
        !(spec_gba_ram_region(address) matches Some((GbaRamRegion::Ewram, _))) ==> final(ewram)@ == old(ewram)@,
        !(spec_gba_ram_region(address) matches Some((GbaRamRegion::Iwram, _))) ==> final(iwram)@ == old(iwram)@,
        spec_gba_ram_region(address) matches Some((GbaRamRegion::Ewram, o)) ==> {
            &&& o + from@.len() <= old(ewram)@.len() ==> r is Ok && final(ewram)@ == old(ewram)@.subrange(0, o) + from@
                + old(ewram)@.subrange(o + from@.len(), old(ewram)@.len() as int)
            &&& o + from@.len() > old(ewram)@.len() ==> (r matches Err(e) && e@
                == "invalid range (went outside of the region)"@) && final(ewram)@ == old(ewram)@
        },
        spec_gba_ram_region(address) matches Some((GbaRamRegion::Iwram, o)) ==> {
            &&& o + from@.len() <= old(iwram)@.len() ==> r is Ok && final(iwram)@ == old(iwram)@.subrange(0, o) + from@
                + old(iwram)@.subrange(o + from@.len(), old(iwram)@.len() as int)
            &&& o + from@.len() > old(iwram)@.len() ==> (r matches Err(e) && e@
                == "invalid range (went outside of the region)"@) && final(iwram)@ == old(iwram)@
        },
{
    match gba_ram_region(address) {
        None => Err("unknown address"),
        Some((GbaRamRegion::Ewram, offset)) => gba_write_region(ewram, offset, from),
        Some((GbaRamRegion::Iwram, offset)) => gba_write_region(iwram, offset, from),
    }
}

/// The pixel that mGBA produces (red in the low byte) as an opaque A8R8G8B8
/// pixel (red in the third byte).
pub open spec fn spec_gba_pixel(pixel: u32) -> u32 {
    0xFF000000u32 | ((pixel >> 16u32) & 0xFF) | (pixel & 0xFF00) | ((pixel << 16u32) & 0xFF0000)
}

/// Convert one mGBA pixel to an opaque A8R8G8B8 pixel.
pub fn gba_pixel(pixel: u32) -> (r: u32)
    ensures
        r == spec_gba_pixel(pixel),
{
    0xFF000000u32 | ((pixel >> 16u32) & 0xFF) | (pixel & 0xFF00) | ((pixel << 16u32) & 0xFF0000)
}

/// Converted pixels are opaque and keep green while swapping red and blue.
pub proof fn law_gba_pixel_swaps_red_and_blue(pixel: u32)
    ensures
        spec_gba_pixel(pixel) >> 24u32 == 0xFF,
        (spec_gba_pixel(pixel) >> 16u32) & 0xFF == pixel & 0xFF,
        (spec_gba_pixel(pixel) >> 8u32) & 0xFF == (pixel >> 8u32) & 0xFF,
        spec_gba_pixel(pixel) & 0xFF == (pixel >> 16u32) & 0xFF,
{
    assert({
        let r = 0xFF000000u32 | ((pixel >> 16u32) & 0xFF) | (pixel & 0xFF00) | ((pixel << 16u32) & 0xFF0000);
        &&& r >> 24u32 == 0xFF
        &&& (r >> 16u32) & 0xFF == pixel & 0xFF
        &&& (r >> 8u32) & 0xFF == (pixel >> 8u32) & 0xFF
        &&& r & 0xFF == (pixel >> 16u32) & 0xFF
    }) by (bit_vector);
}

/// Convert the pixels of a frame from mGBA into `into`, pairing them up in
/// order; pixels past the shorter of the two are left alone.
pub fn gba_convert_pixels(into: &mut Vec<u32>, from: &[u32])
    ensures
        final(into)@.len() == old(into)@.len(),
        forall|i: int|
            0 <= i < old(into)@.len() ==> #[trigger] final(into)@[i] == if i < from@.len() {
                spec_gba_pixel(from@[i])
            } else {
                old(into)@[i]
            },
{
    let n = if into.len() < from.len() { into.len() } else { from.len() };
    let ghost before = into@;
    let mut i: usize = 0;
    while i < n
        invariant
            n <= into@.len(),
            n <= from@.len(),
            n == vstd::math::min(before.len() as int, from@.len() as int),
            into@.len() == before.len(),
            i <= n,
            forall|j: int| 0 <= j < i ==> into@[j] == spec_gba_pixel(from@[j]),
            forall|j: int| i <= j < before.len() ==> into@[j] == before[j],
        decreases n - i,
    {
        let p = gba_pixel(from[i]);
        into.set(i, p);
        i = i + 1;
    }
}


/// How the pixels of a screen are encoded.
#[derive(Copy, Clone, Debug, PartialEq, Eq, Structural)]
pub enum ScreenDataEncoding {
    /// 32-bit pixels: alpha, red, green, blue from the high byte down.
    A8R8G8B8,
}

/// The pixels of one screen of an emulated console.
#[derive(Clone, Debug)]
pub struct ScreenData {
    pub pixels: Vec<u32>,
    pub width: usize,
    pub height: usize,
    pub encoding: ScreenDataEncoding,
}

impl ScreenData {
    /// A black screen of the given size.
    pub fn blank(width: usize, height: usize) -> (r: ScreenData)
        requires
            width * height <= usize::MAX,
        ensures
            r.width == width,
            r.height == height,
            r.encoding == ScreenDataEncoding::A8R8G8B8,
            r.pixels@ == Seq::new((width * height) as nat, |i: int| 0u32),
    {
        let n = width * height;
        let mut pixels: Vec<u32> = Vec::new();
        let mut i: usize = 0;
        while i < n
            invariant
                i <= n,
                pixels@ == Seq::new(i as nat, |j: int| 0u32),
            decreases n - i,
        {
            pixels.push(0);
            i = i + 1;
            assert(pixels@ =~= Seq::new(i as nat, |j: int| 0u32));
        }
        ScreenData { pixels, width, height, encoding: ScreenDataEncoding::A8R8G8B8 }
    }
}

/// The two screens of a Nintendo DS (256x192 each), black.
pub fn nds_blank_screens() -> (r: Vec<ScreenData>)
    ensures
        r@.len() == 2,
        forall|i: int| 0 <= i < 2 ==> r@[i].width == 256 && r@[i].height == 192
            && r@[i].encoding == ScreenDataEncoding::A8R8G8B8
            && r@[i].pixels@ == Seq::new(256 * 192, |j: int| 0u32),
{
    let mut screens: Vec<ScreenData> = Vec::new();
    screens.push(ScreenData::blank(256, 192));
    screens.push(ScreenData::blank(256, 192));
    screens
}

/// The screen of a Game Boy Advance (240x160), black.
pub fn gba_blank_screen() -> (r: ScreenData)
    ensures
        r.width == 240 && r.height == 160 && r.encoding == ScreenDataEncoding::A8R8G8B8
            && r.pixels@ == Seq::new(240 * 160, |j: int| 0u32),
{
    ScreenData::blank(240, 160)
}

} // verus!
