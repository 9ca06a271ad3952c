//! Frames, sound and capture cards.
use atem_ip_patchbay::audio_bridge::interleave_s16le;
use atem_ip_patchbay::decklink::{parse_decklink_devices, parse_decklink_modes};
use atem_ip_patchbay::frame_pack::pack_frame;

/// A sample between minus one and one as a number of sixteen bits.
fn to_s16(x: f32) -> i16 {
    (x * 32767.0).clamp(-32768.0, 32767.0) as i16
}

/// Planar samples as interleaved stereo bytes.
fn interleave(planar: &[f32], channels: i32) -> Vec<u8> {
    let scaled: Vec<i16> = planar.iter().map(|x| to_s16(*x)).collect();
    interleave_s16le(&scaled, channels)
}

#[test]
fn mono_source_duplicates_to_stereo() {
    let planar = vec![1.0_f32, 1.0, 1.0, 1.0];
    let bytes = interleave(&planar, 1);
    assert_eq!(bytes.len(), 16);
    for chunk in bytes.chunks_exact(2) {
        let v = i16::from_le_bytes([chunk[0], chunk[1]]);
        assert_eq!(v, 32767);
    }
}

#[test]
fn stereo_source_planar_to_interleaved() {
    let planar = vec![0.5_f32, -0.5, 0.25, -0.25];
    let bytes = interleave(&planar, 2);
    assert_eq!(bytes.len(), 8);
    let s = |i: usize| i16::from_le_bytes([bytes[i * 2], bytes[i * 2 + 1]]);
    assert_eq!(s(0), (0.5 * 32767.0) as i16);
    assert_eq!(s(1), (0.25 * 32767.0) as i16);
    assert_eq!(s(2), (-0.5 * 32767.0) as i16);
    assert_eq!(s(3), (-0.25 * 32767.0) as i16);
}

#[test]
fn clipping_signal_clamps_not_wraps() {
    let planar = vec![1.5_f32, -1.5];
    let bytes = interleave(&planar, 2);
    let l = i16::from_le_bytes([bytes[0], bytes[1]]);
    let r = i16::from_le_bytes([bytes[2], bytes[3]]);
    assert_eq!(l, 32767);
    assert_eq!(r, -32768);
}

#[test]
fn quad_source_truncates_to_stereo() {
    let planar = vec![0.1_f32, 0.2, 0.3, 0.4];
    let bytes = interleave(&planar, 4);
    assert_eq!(bytes.len(), 4);
    let l = i16::from_le_bytes([bytes[0], bytes[1]]);
    let r = i16::from_le_bytes([bytes[2], bytes[3]]);
    assert_eq!(l, (0.1 * 32767.0) as i16);
    assert_eq!(r, (0.2 * 32767.0) as i16);
}

#[test]
fn empty_input_yields_empty_output() {
    let bytes = interleave(&[], 2);
    assert!(bytes.is_empty());
}

#[test]
fn passthrough_when_no_stride_info() {
    let buf = vec![1u8, 2, 3, 4, 5, 6, 7, 8];
    let out = pack_frame(&buf, 2, 1, 4, None);
    assert_eq!(out, buf);
}

#[test]
fn fast_path_when_already_tight() {
    let buf: Vec<u8> = (0..32).collect();
    let out = pack_frame(&buf, 4, 2, 4, Some(16));
    assert_eq!(out, buf);
}

#[test]
fn slices_off_trailing_alignment() {
    let buf: Vec<u8> = (0..40).collect();
    let out = pack_frame(&buf, 4, 2, 4, Some(16));
    assert_eq!(out.len(), 32);
    assert_eq!(out, (0..32).collect::<Vec<u8>>());
}

#[test]
fn slow_path_strips_per_row_padding() {
    let mut buf = Vec::with_capacity(36);
    for row in 0..3u8 {
        buf.extend_from_slice(&[row, row, row, row, row, row, row, row]);
        buf.extend_from_slice(&[0xff, 0xff, 0xff, 0xff]);
    }
    let out = pack_frame(&buf, 2, 3, 4, Some(12));
    assert_eq!(out.len(), 24);
    for row in 0..3u8 {
        for col in 0..8 {
            assert_eq!(out[row as usize * 8 + col], row);
        }
    }
}

#[test]
fn bails_safely_on_short_buffer() {
    let buf = vec![0xaau8; 20];
    let out = pack_frame(&buf, 4, 4, 4, Some(16));
    assert!(out.len() <= 64);
}

#[test]
fn parse_devices_from_typical_output() {
    let text = "\
[decklink @ 0x600003b1c000] Blackmagic DeckLink devices:
[decklink @ 0x600003b1c000] 'DeckLink Mini Monitor 4K'
[decklink @ 0x600003b1c000] 'DeckLink 8K Pro (1)'
[decklink @ 0x600003b1c000] 'DeckLink 8K Pro (2)'
dummy: Immediate exit requested
";
    let devices = parse_decklink_devices(text);
    let names: Vec<_> = devices.iter().map(|d| d.name.as_str()).collect();
    assert_eq!(
        names,
        vec![
            "DeckLink Mini Monitor 4K",
            "DeckLink 8K Pro (1)",
            "DeckLink 8K Pro (2)",
        ]
    );
}

#[test]
fn parse_modes_skips_header_row() {
    let text = "\
[decklink @ 0x600003b1c000] Supported formats for 'DeckLink Mini Monitor 4K':
[decklink @ 0x600003b1c000]   format_code  description
[decklink @ 0x600003b1c000]   ntsc         720x486 at 30000/1001 fps (interlaced, lower field first)
[decklink @ 0x600003b1c000]   Hp59         1920x1080 at 60000/1001 fps
[decklink @ 0x600003b1c000]   Hp60         1920x1080 at 60000/1000 fps
";
    let modes = parse_decklink_modes(text);
    assert_eq!(modes.len(), 3);
    assert_eq!(modes[0].format_code, "ntsc");
    assert!(modes[0].interlaced);
    assert_eq!(modes[1].format_code, "Hp59");
    assert_eq!(modes[1].width, 1920);
    assert_eq!(modes[1].height, 1080);
    assert_eq!(modes[1].fps_num, 60000);
    assert_eq!(modes[1].fps_den, 1001);
    assert!(!modes[1].interlaced);
}

#[test]
fn parse_devices_empty_on_no_decklink_output() {
    assert!(parse_decklink_devices("").is_empty());
    assert!(parse_decklink_devices("ffmpeg version blah blah").is_empty());
}

#[test]
fn parse_devices_n8_1_1_format() {
    let text = "\
[Blackmagic DeckLink indev @ 0x295c995dd00] The \"list_devices\" option is deprecated: use ffmpeg -sources decklink instead
[in#0 @ 0x295c995d5c0] Blackmagic DeckLink input devices:
[in#0 @ 0x295c995d5c0] \t'DeckLink Studio 4K'
[in#0 @ 0x295c995d5c0] \t'NDI Machine'
[in#0 @ 0x295c995d5c0] \t'NDI Machine 2'
[in#0 @ 0x295c995d5c0] \t'DeckLink 8K Pro (2)'
";
    let devices = parse_decklink_devices(text);
    let names: Vec<_> = devices.iter().map(|d| d.name.as_str()).collect();
    assert_eq!(
        names,
        vec![
            "DeckLink Studio 4K",
            "NDI Machine",
            "NDI Machine 2",
            "DeckLink 8K Pro (2)",
        ]
    );
}

#[test]
fn parse_modes_n8_1_1_format() {
    let text = "\
[in#0 @ 0x2bd4a16d5c0] Supported formats for 'DeckLink Studio 4K':
\tformat_code\tdescription
\tntsc\t\t720x486 at 30000/1001 fps (interlaced, lower field first)
\tHp59\t\t1920x1080 at 60000/1001 fps
\tHp60\t\t1920x1080 at 60000/1000 fps
";
    let modes = parse_decklink_modes(text);
    assert_eq!(modes.len(), 3);
    assert_eq!(modes[0].format_code, "ntsc");
    assert!(modes[0].interlaced);
    assert_eq!(modes[1].format_code, "Hp59");
    assert_eq!(modes[1].width, 1920);
    assert_eq!(modes[1].height, 1080);
    assert_eq!(modes[1].fps_num, 60000);
    assert_eq!(modes[1].fps_den, 1001);
    assert!(!modes[1].interlaced);
}
