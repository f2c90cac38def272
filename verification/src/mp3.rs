//! Bit rate of an MP3 stream, read from its first frame header.
use vstd::prelude::*;
use vstd::arithmetic::power2::{pow2, lemma2_to64};
use crate::text::{decimal, decimal_chars, string_of};

verus! {

/// Whether the data begins with an ID3v2 tag header (`ID3` and ten bytes).
pub open spec fn has_id3(data: Seq<u8>) -> bool {
    data.len() >= 10 && data[0] == 0x49u8 && data[1] == 0x44u8 && data[2] == 0x33u8
}

/// Where the audio starts: after the ID3v2 tag when there is one. The tag
/// size is read from bytes 6 to 9, seven bits a byte as the tag format says
/// (the bytes are combined whole, as a bitwise or).
pub open spec fn audio_start(data: Seq<u8>) -> nat {
    if has_id3(data) {
        (10 + (((data[6] as u32) << 21u32) | ((data[7] as u32) << 14u32) | ((data[8] as u32) << 7u32)
            | (data[9] as u32))) as nat
    } else {
        0
    }
}

/// Whether two bytes at `i` form an MPEG frame sync (`0xFF`, then three set bits).
pub open spec fn is_sync(data: Seq<u8>, i: int) -> bool {
    data[i] == 0xFFu8 && (data[i + 1] & 0xE0u8) == 0xE0u8
}

/// The position of the first frame sync at or after `start`.
pub open spec fn first_sync(data: Seq<u8>, start: nat) -> Option<nat> {
    if exists|i: int| start <= i && i + 1 < data.len() && is_sync(data, i) {
        Some(
            (choose|i: int|
                start <= i && i + 1 < data.len() && is_sync(data, i) && forall|j: int|
                    start <= j < i ==> !is_sync(data, j)) as nat,
        )
    } else {
        None
    }
}

/// The MPEG-1 Layer III bit rates in kbit/s, by the header's bit-rate index
/// (index 15 is not a valid rate).
pub open spec fn bitrate_table(i: nat) -> Option<nat> {
    if i == 0 { Some(0) }
    else if i == 1 { Some(32) }
    else if i == 2 { Some(40) }
    else if i == 3 { Some(48) }
    else if i == 4 { Some(56) }
    else if i == 5 { Some(64) }
    else if i == 6 { Some(80) }
    else if i == 7 { Some(96) }
    else if i == 8 { Some(112) }
    else if i == 9 { Some(128) }
    else if i == 10 { Some(160) }
    else if i == 11 { Some(192) }
    else if i == 12 { Some(224) }
    else if i == 13 { Some(256) }
    else if i == 14 { Some(320) }
    else { None }
}

/// Whether `Xing` stands at `off`.
pub open spec fn has_xing(data: Seq<u8>, off: nat) -> bool {
    off + 4 <= data.len() && data[off as int] == 0x58u8 && data[off + 1int] == 0x69u8 && data[off + 2int]
        == 0x6eu8 && data[off + 3int] == 0x67u8
}

/// The bit rate label of MP3 data: `VBR` when the first frame carries a Xing
/// header, else `N kbps` from the frame header; `None` when there is no
/// MPEG-1 Layer III frame with a valid, non-free bit rate.
pub open spec fn mp3_bitrate_spec(data: Seq<u8>) -> Option<Seq<char>> {
    match first_sync(data, audio_start(data)) {
        None => None,
        Some(fs) => if fs + 4 > data.len() {
            None
        } else {
            let h1 = data[fs + 1int];
            let h2 = data[fs + 2int];
            let h3 = data[fs + 3int];
            if (h1 & 0x18u8) != 0x18u8 || (h1 & 0x06u8) != 0x02u8 {
                None
            } else {
                match bitrate_table((h2 >> 4u8) as nat) {
                    None => None,
                    Some(rate) => if rate == 0 {
                        None
                    } else {
                        let side: nat = if (h3 >> 6u8) == 3u8 { 17 } else { 32 };
                        if has_xing(data, fs + 4 + side) {
                            Some("VBR"@)
                        } else {
                            Some(decimal(rate) + " kbps"@)
                        }
                    },
                }
            }
        },
    }
}

/// Where the audio of MP3 data starts, after any ID3v2 tag.
pub fn audio_start_exec(data: &[u8]) -> (r: usize)
    ensures
        r == audio_start(data@),
{
    if data.len() >= 10 && data[0] == 0x49u8 && data[1] == 0x44u8 && data[2] == 0x33u8 {
        let b6 = data[6];
        let b7 = data[7];
        let b8 = data[8];
        let b9 = data[9];
        let size: u32 = ((b6 as u32) << 21u32) | ((b7 as u32) << 14u32) | ((b8 as u32) << 7u32) | (
        b9 as u32);
        assert(size < 0x2000_0000u32) by (bit_vector)
            requires
                size == ((b6 as u32) << 21u32) | ((b7 as u32) << 14u32) | ((b8 as u32) << 7u32) | (
                b9 as u32),
        ;
        10 + size as usize
    } else {
        0
    }
}

/// The bit-rate index of a header byte to its table entry.
fn bitrate_of(i: u8) -> (r: Option<u32>)
    requires
        i < 16,
    ensures
        match r {
            Some(v) => bitrate_table(i as nat) == Some(v as nat),
            None => bitrate_table(i as nat) is None,
        },
{
    let table: [u32; 15] = [0, 32, 40, 48, 56, 64, 80, 96, 112, 128, 160, 192, 224, 256, 320];
    if (i as usize) < 15 {
        Some(table[i as usize])
    } else {
        None
    }
}

/// Finds the first frame sync at or after `start`.
fn find_sync(data: &[u8], start: usize) -> (r: Option<usize>)
    ensures
        match r {
            Some(f) => first_sync(data@, start as nat) == Some(f as nat) && f + 1 < data@.len(),
            None => first_sync(data@, start as nat) is None,
        },
{
    let len = data.len();
    if len < 2 {
        return None;
    }
    let mut i = start;
    while i < len - 1
        invariant
            start <= i,
            len == data@.len(),
            len >= 2,
            forall|j: int| start <= j < i ==> !is_sync(data@, j),
        decreases len - i,
    {
        if data[i] == 0xFFu8 && (data[i + 1] & 0xE0u8) == 0xE0u8 {
            assert(is_sync(data@, i as int));
            assert(first_sync(data@, start as nat) == Some(i as nat)) by {
                let c = choose|k: int|
                    start <= k && k + 1 < data@.len() && is_sync(data@, k) && forall|j: int|
                        start <= j < k ==> !is_sync(data@, j);
                assert(start <= i && i + 1 < data@.len() && is_sync(data@, i as int) && forall|j: int|
                    start <= j < i ==> !is_sync(data@, j));
                if c < i {
                    assert(!is_sync(data@, c));
                }
                if c > i {
                    assert(!is_sync(data@, i as int));
                }
            }
            return Some(i);
        }
        i += 1;
    }
    assert forall|k: int| start <= k && k + 1 < data@.len() implies !is_sync(data@, k) by {
        assert(k < i);
    }
    None
}

/// Parses the bit rate from the first MP3 frame header: `128 kbps` for
/// constant bit rate, `VBR` for a Xing (variable bit rate) stream.
pub fn parse_mp3_bitrate(data: &[u8]) -> (r: Option<String>)
    requires
        audio_start(data@) <= data@.len(),
    ensures
        match r {
            Some(s) => mp3_bitrate_spec(data@) == Some(s@),
            None => mp3_bitrate_spec(data@) is None,
        },
{
    let start = audio_start_exec(data);
    let len = data.len();
    proof {
        reveal_strlit("VBR");
    }
    let fs = match find_sync(data, start) {
        Some(f) => f,
        None => return None,
    };
    if len < 4 || fs > len - 4 {
        return None;
    }
    let h1 = data[fs + 1];
    let h2 = data[fs + 2];
    let h3 = data[fs + 3];
    if (h1 & 0x18u8) != 0x18u8 || (h1 & 0x06u8) != 0x02u8 {
        return None;
    }
    let idx = h2 >> 4u8;
    assert(idx < 16) by (bit_vector)
        requires
            idx == h2 >> 4u8,
    ;
    let rate = match bitrate_of(idx) {
        Some(v) => v,
        None => return None,
    };
    if rate == 0 {
        return None;
    }
    let side: usize = if (h3 >> 6u8) == 3u8 { 17 } else { 32 };
    if len >= 8 + side && fs <= len - 8 - side {
        let xo = fs + 4 + side;
        if data[xo] == 0x58u8 && data[xo + 1] == 0x69u8 && data[xo + 2] == 0x6eu8 && data[xo + 3]
            == 0x67u8 {
            return Some("VBR".to_string());
        }
    }
    let mut label = decimal_chars(rate as u64);
    label.push(' ');
    label.push('k');
    label.push('b');
    label.push('p');
    label.push('s');
    proof {
        reveal_strlit(" kbps");
    }
    assert(label@ =~= decimal(rate as nat) + " kbps"@);
    Some(string_of(label.as_slice()))
}

/// The MPEG-1 Layer III bit rates follow the standard's pattern: from 32
/// kbit/s they rise in four groups of four steps, and each group starts at
/// twice the rate of the one before and takes steps twice as large (8, 16,
/// 32 and 64 kbit/s). Index 0 is the free rate, and index 15 is invalid.
pub proof fn law_layer3_bit_rates(i: nat)
    requires
        i < 16,
    ensures
        1 <= i <= 14 ==> bitrate_table(i) == Some(pow2(((i - 1) / 4) as nat) * (32 + 8 * ((i - 1) % 4)) as nat),
        i == 0 ==> bitrate_table(i) == Some(0nat),
        i == 15 ==> bitrate_table(i) is None,
{
    lemma2_to64();
    if 1 <= i <= 14 {
        let g = ((i - 1) / 4) as nat;
        let r = (i - 1) % 4;
        let f: nat = if g == 0 { 1 } else if g == 1 { 2 } else if g == 2 { 4 } else { 8 };
        assert(pow2(g) == f);
        assert(f * (32 + 8 * r) == f * 32 + f * 8 * r) by (nonlinear_arith);
        if i == 1 { assert(g == 0 && r == 0); }
        if i == 2 { assert(g == 0 && r == 1); }
        if i == 3 { assert(g == 0 && r == 2); }
        if i == 4 { assert(g == 0 && r == 3); }
        if i == 5 { assert(g == 1 && r == 0); }
        if i == 6 { assert(g == 1 && r == 1); }
        if i == 7 { assert(g == 1 && r == 2); }
        if i == 8 { assert(g == 1 && r == 3); }
        if i == 9 { assert(g == 2 && r == 0); }
        if i == 10 { assert(g == 2 && r == 1); }
        if i == 11 { assert(g == 2 && r == 2); }
        if i == 12 { assert(g == 2 && r == 3); }
        if i == 13 { assert(g == 3 && r == 0); }
        if i == 14 { assert(g == 3 && r == 1); }
    }
}

/// An ID3v2 tag is skipped whole: its ten-byte header, then the size that
/// bytes 6 to 9 give as a syncsafe number (seven bits a byte, most
/// significant first). Data without a tag starts at once.
pub proof fn law_id3_tag_is_skipped(data: Seq<u8>)
    ensures
        !has_id3(data) ==> audio_start(data) == 0,
        has_id3(data) && data[6] < 128 && data[7] < 128 && data[8] < 128 && data[9] < 128 ==> audio_start(data)
            == 10 + data[6] * 2097152 + data[7] * 16384 + data[8] * 128 + data[9],
{
    if has_id3(data) && data[6] < 128 && data[7] < 128 && data[8] < 128 && data[9] < 128 {
        let b6 = data[6];
        let b7 = data[7];
        let b8 = data[8];
        let b9 = data[9];
        assert((((b6 as u32) << 21u32) | ((b7 as u32) << 14u32) | ((b8 as u32) << 7u32) | (b9 as u32))
            == b6 as u32 * 2097152u32 + b7 as u32 * 16384u32 + b8 as u32 * 128u32 + b9 as u32) by (bit_vector)
            requires
                b6 < 128u8,
                b7 < 128u8,
                b8 < 128u8,
                b9 < 128u8,
        ;
    }
}

} // verus!


