//! Packets and stream ids.
use atem_ip_patchbay::srt_handshake::{
    decode_srt_sid, extract_bmd_key, hex_decode, parse_srt_handshake_streamid,
};

#[test]
fn decode_sid_single_word() {
    let bytes = [b'd', b'c', b'b', b'a'];
    assert_eq!(decode_srt_sid(&bytes), Some("abcd".to_string()));
}

#[test]
fn decode_sid_with_null_padding() {
    let bytes = [b'd', b'c', b'b', b'a', 0, 0, 0, b'e'];
    assert_eq!(decode_srt_sid(&bytes), Some("abcde".to_string()));
}

#[test]
fn extract_bmd_key_full_streamid() {
    let s = "#!::bmd_uuid=d1a90517-1c00-4e57-9fab-617465616d64,bmd_name=ATEM-net-diag,u=q1ry-abcd-1234";
    assert_eq!(extract_bmd_key(s), Some("q1ry-abcd-1234".to_string()));
}

#[test]
fn extract_bmd_key_no_prefix() {
    assert_eq!(extract_bmd_key("u=onlykey"), Some("onlykey".to_string()));
}

#[test]
fn extract_bmd_key_missing() {
    assert_eq!(extract_bmd_key("no key here"), None);
    assert_eq!(extract_bmd_key("user=foo,name=bar"), None);
}

#[test]
fn hex_decode_basic() {
    assert_eq!(hex_decode("64636261"), vec![0x64, 0x63, 0x62, 0x61]);
    assert_eq!(hex_decode("64:63:62:61"), vec![0x64, 0x63, 0x62, 0x61]);
    assert_eq!(hex_decode(""), Vec::<u8>::new());
    assert_eq!(hex_decode("FF::aa"), vec![0xFF, 0xAA]);
}

#[test]
fn parse_full_hsv5_conclusion_with_sid() {
    let mut packet = Vec::new();
    packet.extend_from_slice(&[0x80, 0x00]);
    packet.extend_from_slice(&[0x00, 0x00]);
    packet.extend_from_slice(&[0u8; 4]);
    packet.extend_from_slice(&[0u8; 4]);
    packet.extend_from_slice(&[0u8; 4]);
    packet.extend_from_slice(&[0x00, 0x00, 0x00, 0x05]);
    packet.extend_from_slice(&[0x00, 0x00]);
    packet.extend_from_slice(&[0x00, 0x04]);
    packet.extend_from_slice(&[0u8; 4]);
    packet.extend_from_slice(&[0x00, 0x00, 0x05, 0xDC]);
    packet.extend_from_slice(&[0x00, 0x00, 0x20, 0x00]);
    packet.extend_from_slice(&[0xFF, 0xFF, 0xFF, 0xFF]);
    packet.extend_from_slice(&[0u8; 4]);
    packet.extend_from_slice(&[0u8; 4]);
    packet.extend_from_slice(&[0u8; 16]);
    packet.extend_from_slice(&[0x00, 0x05]);
    packet.extend_from_slice(&[0x00, 0x01]);
    packet.extend_from_slice(&[b'd', b'c', b'b', b'a']);
    assert_eq!(
        parse_srt_handshake_streamid(&packet),
        Some("abcd".to_string())
    );
}

#[test]
fn parse_rejects_non_handshake_control() {
    let mut packet = vec![0x80, 0x02];
    packet.extend_from_slice(&[0u8; 70]);
    assert_eq!(parse_srt_handshake_streamid(&packet), None);
}

#[test]
fn parse_rejects_data_packet() {
    let packet = vec![0x00; 100];
    assert_eq!(parse_srt_handshake_streamid(&packet), None);
}

#[test]
fn parse_rejects_too_short() {
    assert_eq!(parse_srt_handshake_streamid(&[]), None);
    assert_eq!(parse_srt_handshake_streamid(&[0x80; 16]), None);
}

#[test]
fn other_texts_are_no_hex() {
    assert_eq!(hex_decode("64zz6a"), Vec::<u8>::new());
    assert_eq!(hex_decode("64 63"), Vec::<u8>::new());
    assert_eq!(hex_decode("6\u{e9}"), Vec::<u8>::new());
    assert_eq!(hex_decode("64:6"), vec![0x64]);
    assert_eq!(hex_decode("6:4"), vec![0x64]);
}
