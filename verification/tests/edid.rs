use displaymux::edid::{
    consider_detailed_timing, is_valid, max_resolution, preferred_resolution, EDID_BLOCK_SIZE,
};
use displaymux::{MonitorResolution, ResolutionSource};

const EDID_HEADER: [u8; 8] = [0x00, 0xff, 0xff, 0xff, 0xff, 0xff, 0xff, 0x00];

fn seal(block: &mut [u8]) {
    let last = block.len() - 1;
    block[last] = 0_u8.wrapping_sub(
        block[..last]
            .iter()
            .fold(0_u8, |sum, byte| sum.wrapping_add(*byte)),
    );
}

fn write_timing(block: &mut [u8], offset: usize, width: u32, height: u32) {
    block[offset] = 1;
    block[offset + 2] = width as u8;
    block[offset + 4] = ((width >> 8) as u8) << 4;
    block[offset + 5] = height as u8;
    block[offset + 7] = ((height >> 8) as u8) << 4;
}

fn edid_with_timings(timings: &[(u32, u32)]) -> [u8; EDID_BLOCK_SIZE] {
    let mut edid = [0_u8; EDID_BLOCK_SIZE];
    edid[..8].copy_from_slice(&EDID_HEADER);
    for (index, (width, height)) in timings.iter().take(4).enumerate() {
        write_timing(&mut edid, 54 + index * 18, *width, *height);
    }
    seal(&mut edid);
    edid
}

/// A base block that announces one extension block, and that block.
fn edid_with_extension(tag: u8, start: u8, timings: &[(u32, u32)]) -> Vec<u8> {
    let mut edid = edid_with_timings(&[(1920, 1080)]).to_vec();
    edid[126] = 1;
    seal(&mut edid);
    let mut extension = [0_u8; EDID_BLOCK_SIZE];
    extension[0] = tag;
    extension[2] = start;
    for (index, (width, height)) in timings.iter().enumerate() {
        write_timing(&mut extension, start as usize + index * 18, *width, *height);
    }
    seal(&mut extension);
    edid.extend_from_slice(&extension);
    edid
}

#[test]
fn valid_edid_uses_the_largest_detailed_timing() {
    for expected in [(3440, 1440), (2560, 1080), (2560, 1440), (3840, 2160)] {
        let edid = edid_with_timings(&[(1920, 1080), expected]);
        let (resolution, source) =
            preferred_resolution(Some(&edid), Some(MonitorResolution::new(1280, 720)));
        assert_eq!(
            resolution,
            Some(MonitorResolution::new(expected.0, expected.1))
        );
        assert_eq!(source, Some(ResolutionSource::Edid));
    }
}

#[test]
fn malformed_or_missing_edid_uses_core_graphics_physical_pixels() {
    let fallback = Some(MonitorResolution::new(3440, 1440));
    for edid in [None, Some(&[0_u8; 32][..]), Some(&[0_u8; 128][..])] {
        assert_eq!(
            preferred_resolution(edid, fallback),
            (fallback, Some(ResolutionSource::CoreGraphicsDisplayMode))
        );
    }
}

#[test]
fn valid_edid_without_a_timing_uses_core_graphics_physical_pixels() {
    let edid = edid_with_timings(&[]);
    let fallback = Some(MonitorResolution::new(2560, 1440));
    assert_eq!(
        preferred_resolution(Some(&edid), fallback),
        (fallback, Some(ResolutionSource::CoreGraphicsDisplayMode))
    );
}

#[test]
fn bad_checksum_invalidates_an_otherwise_well_formed_edid() {
    let mut edid = edid_with_timings(&[(3840, 2160)]);
    edid[20] = edid[20].wrapping_add(1);
    assert!(!is_valid(&edid));
}

#[test]
fn nothing_known_gives_no_resolution_and_no_source() {
    assert_eq!(preferred_resolution(None, None), (None, None));
}

#[test]
fn short_data_is_no_edid() {
    assert!(!is_valid(&[0_u8; 32]));
    assert!(!is_valid(&edid_with_timings(&[])[..127]));
    assert!(is_valid(&edid_with_timings(&[])));
}

#[test]
fn announced_extension_must_be_present_and_intact() {
    let mut edid = edid_with_extension(0x02, 4, &[(3840, 2160)]);
    assert!(is_valid(&edid));
    assert!(!is_valid(&edid[..EDID_BLOCK_SIZE]));
    edid[200] = edid[200].wrapping_add(1);
    assert!(!is_valid(&edid));
}

#[test]
fn extension_timings_count_only_in_timing_extensions() {
    let timing = edid_with_extension(0x02, 4, &[(2560, 1440), (3840, 2160)]);
    assert_eq!(
        max_resolution(&timing),
        Some(MonitorResolution::new(3840, 2160))
    );
    let other_kind = edid_with_extension(0x70, 4, &[(3840, 2160)]);
    assert_eq!(
        max_resolution(&other_kind),
        Some(MonitorResolution::new(1920, 1080))
    );
    let early_start = edid_with_extension(0x02, 3, &[(3840, 2160)]);
    assert_eq!(
        max_resolution(&early_start),
        Some(MonitorResolution::new(1920, 1080))
    );
}

#[test]
fn wider_timing_wins_a_tie_in_pixels() {
    let edid = edid_with_timings(&[(1200, 1600), (1600, 1200)]);
    assert_eq!(
        max_resolution(&edid),
        Some(MonitorResolution::new(1600, 1200))
    );
    let reversed = edid_with_timings(&[(1600, 1200), (1200, 1600)]);
    assert_eq!(
        max_resolution(&reversed),
        Some(MonitorResolution::new(1600, 1200))
    );
}

#[test]
fn timing_outside_the_block_is_ignored() {
    let mut maximum = Some(MonitorResolution::new(640, 480));
    consider_detailed_timing(&[1_u8; 17], 0, &mut maximum);
    assert_eq!(maximum, Some(MonitorResolution::new(640, 480)));
    let mut nothing = None;
    consider_detailed_timing(&[0_u8; 18], 0, &mut nothing);
    assert_eq!(nothing, None);
}
