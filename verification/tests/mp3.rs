use bcp::mp3::{audio_start_exec, parse_mp3_bitrate};

fn frame(h2: u8, h3: u8) -> Vec<u8> {
    let mut v = vec![0xFFu8, 0xFB, h2, h3];
    v.extend(std::iter::repeat(0u8).take(64));
    v
}

#[test]
fn constant_bitrate_frame() {
    assert_eq!(parse_mp3_bitrate(&frame(0x90, 0x00)).as_deref(), Some("128 kbps"));
    assert_eq!(parse_mp3_bitrate(&frame(0xE0, 0x00)).as_deref(), Some("320 kbps"));
}

#[test]
fn xing_header_means_vbr() {
    let mut v = frame(0x90, 0x00);
    v[36..40].copy_from_slice(b"Xing");
    assert_eq!(parse_mp3_bitrate(&v).as_deref(), Some("VBR"));
    let mut m = frame(0x90, 0xC0);
    m[21..25].copy_from_slice(b"Xing");
    assert_eq!(parse_mp3_bitrate(&m).as_deref(), Some("VBR"));
}

#[test]
fn id3_tag_is_skipped() {
    let mut v = vec![b'I', b'D', b'3', 3, 0, 0, 0, 0, 0, 4, 0xFF, 0xFF, 0xFF, 0xFF];
    v.extend(frame(0x50, 0x00));
    assert_eq!(audio_start_exec(&v), 14);
    assert_eq!(parse_mp3_bitrate(&v).as_deref(), Some("64 kbps"));
}

#[test]
fn not_mpeg1_layer3_or_free_rate() {
    assert_eq!(parse_mp3_bitrate(&[0xFF, 0xF3, 0x90, 0x00]), None);
    assert_eq!(parse_mp3_bitrate(&frame(0x00, 0x00)), None);
    assert_eq!(parse_mp3_bitrate(&frame(0xF0, 0x00)), None);
    assert_eq!(parse_mp3_bitrate(&[1, 2, 3]), None);
    assert_eq!(parse_mp3_bitrate(&[0xFF, 0xFB, 0x90]), None);
}
