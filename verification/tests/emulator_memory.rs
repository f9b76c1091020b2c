use supershuckie::emulator::{
    copy_from_region, copy_into_region, gba_blank_screen, gba_read_ram, gba_write_ram, gba_convert_pixels, gba_pixel, gba_ram_region, gba_read_region,
    gba_write_region, nds_blank_screens, nds_read_ram, nds_write_ram, FramePacer, GbaRamRegion, ScreenData,
    MAX_FRAMES_BEHIND, NDS_DEFAULT_MICROSECONDS_PER_FRAME,
};

#[test]
fn nds_ram_read_and_write() {
    let mut ram = vec![0u8; 8];
    assert_eq!(nds_write_ram(&mut ram, 0x2000002, &[1, 2, 3]), Ok(()));
    assert_eq!(ram, vec![0, 0, 1, 2, 3, 0, 0, 0]);
    let mut out = [0u8; 2];
    assert_eq!(nds_read_ram(&ram, 0x2000003, &mut out), Ok(()));
    assert_eq!(out, [2, 3]);
}

#[test]
fn nds_ram_errors() {
    let mut ram = vec![0u8; 8];
    let mut out = [9u8; 2];
    assert_eq!(nds_read_ram(&ram, 0x1FFFFFF, &mut out), Err("no such ram address"));
    assert_eq!(nds_read_ram(&ram, 0x2000007, &mut out), Err("out of range read"));
    assert_eq!(out, [9, 9]);
    assert_eq!(nds_write_ram(&mut ram, 0x100, &[1]), Err("no such ram address"));
    assert_eq!(nds_write_ram(&mut ram, 0x2000007, &[1, 2]), Err("out of range write"));
    assert_eq!(ram, vec![0u8; 8]);
}

#[test]
fn gba_regions() {
    assert_eq!(gba_ram_region(0x2000010), Some((GbaRamRegion::Ewram, 0x10)));
    assert_eq!(gba_ram_region(0x203FFFF), Some((GbaRamRegion::Ewram, 0x3FFFF)));
    assert_eq!(gba_ram_region(0x2040000), None);
    assert_eq!(gba_ram_region(0x3007FFF), Some((GbaRamRegion::Iwram, 0x7FFF)));
    assert_eq!(gba_ram_region(0x3008000), None);
    assert_eq!(gba_ram_region(0), None);
}

#[test]
fn gba_region_read_write() {
    let mut region = vec![0u8; 4];
    assert_eq!(gba_write_region(&mut region, 1, &[5, 6]), Ok(()));
    assert_eq!(region, vec![0, 5, 6, 0]);
    let mut out = [0u8; 3];
    assert_eq!(gba_read_region(&region, 1, &mut out), Ok(()));
    assert_eq!(out, [5, 6, 0]);
    assert_eq!(gba_read_region(&region, 2, &mut out), Err("invalid range (went outside of the region)"));
    assert_eq!(gba_write_region(&mut region, 3, &[1, 1]), Err("invalid range (went outside of the region)"));
    assert_eq!(region, vec![0, 5, 6, 0]);
}

#[test]
fn copies_report_whether_the_range_fits() {
    let region = [1u8, 2, 3];
    let mut into = [0u8; 2];
    assert!(copy_from_region(&region, 1, &mut into));
    assert_eq!(into, [2, 3]);
    assert!(!copy_from_region(&region, 2, &mut into));
    let mut region2 = [0u8; 3];
    assert!(copy_into_region(&mut region2, 0, &[7, 8]));
    assert_eq!(region2, [7, 8, 0]);
    assert!(!copy_into_region(&mut region2, 2, &[7, 8]));
}

#[test]
fn gba_pixels_swap_red_and_blue() {
    assert_eq!(gba_pixel(0x00112233), 0xFF332211);
    assert_eq!(gba_pixel(0xAB0000FF), 0xFFFF0000);
    let mut into = vec![0u32; 3];
    gba_convert_pixels(&mut into, &[0x000000FF, 0x00FF0000]);
    assert_eq!(into, vec![0xFFFF0000, 0xFF0000FF, 0]);
}

#[test]
fn blank_screens() {
    let s = ScreenData::blank(3, 2);
    assert_eq!(s.pixels, vec![0u32; 6]);
    let nds = nds_blank_screens();
    assert_eq!(nds.len(), 2);
    assert_eq!(nds[1].pixels.len(), 256 * 192);
    let gba = gba_blank_screen();
    assert_eq!((gba.width, gba.height), (240, 160));
}

#[test]
fn frame_pacing() {
    let mut p = FramePacer::new(NDS_DEFAULT_MICROSECONDS_PER_FRAME);
    assert!(!p.is_frame_due(16665));
    assert!(p.is_frame_due(16666));
    p.finish_frame(16700);
    assert_eq!(p.last_frame_microseconds, 16666);
    // Far behind: the reference catches up to sixteen frames before now.
    let now = 1_000_000u64;
    p.finish_frame(now);
    assert_eq!(p.last_frame_microseconds, now - MAX_FRAMES_BEHIND * NDS_DEFAULT_MICROSECONDS_PER_FRAME);
    p.set_microseconds_per_frame(10);
    assert_eq!(p.microseconds_per_frame, 10);
}

#[test]
fn gba_ram_by_address() {
    let mut ewram = vec![0u8; 0x40000];
    let mut iwram = vec![0u8; 0x8000];
    assert_eq!(gba_write_ram(&mut ewram, &mut iwram, 0x2000004, &[9, 8]), Ok(()));
    assert_eq!(&ewram[4..6], &[9, 8]);
    assert_eq!(gba_write_ram(&mut ewram, &mut iwram, 0x3007FFF, &[7]), Ok(()));
    assert_eq!(iwram[0x7FFF], 7);
    assert_eq!(gba_write_ram(&mut ewram, &mut iwram, 0x3007FFF, &[7, 7]), Err("invalid range (went outside of the region)"));
    assert_eq!(gba_write_ram(&mut ewram, &mut iwram, 0x4000000, &[1]), Err("unknown address"));
    let mut out = [0u8; 2];
    assert_eq!(gba_read_ram(&ewram, &iwram, 0x2000004, &mut out), Ok(()));
    assert_eq!(out, [9, 8]);
    assert_eq!(gba_read_ram(&ewram, &iwram, 0x1000000, &mut out), Err("unknown address"));
    assert_eq!(gba_read_ram(&ewram, &iwram, 0x203FFFF, &mut out), Err("invalid range (went outside of the region)"));
    assert_eq!(out, [9, 8]);
}
