use raw91_tun::ipv4::{header_len, is_fragment, protocol, MIN_HEADER_LEN};

/// A frame of `len` bytes, all zero but for the first byte, the flags and
/// offset word and the protocol field.
fn frame(len: usize, first: u8, flags_offset: u16, proto: u8) -> Vec<u8> {
    let mut f = vec![0u8; len];
    if len > 0 {
        f[0] = first;
    }
    if len > 7 {
        f[6] = (flags_offset >> 8) as u8;
        f[7] = flags_offset as u8;
    }
    if len > 9 {
        f[9] = proto;
    }
    f
}

#[test]
fn header_len_of_a_plain_header() {
    assert_eq!(MIN_HEADER_LEN, 20);
    assert_eq!(header_len(&frame(20, 0x45, 0, 222)), Some(20));
    assert_eq!(header_len(&frame(1500, 0x45, 0, 222)), Some(20));
}

#[test]
fn header_len_reads_only_the_low_four_bits() {
    assert_eq!(header_len(&frame(40, 0x05, 0, 0)), Some(20));
    assert_eq!(header_len(&frame(40, 0xf5, 0, 0)), Some(20));
    assert_eq!(header_len(&frame(40, 0x66, 0, 0)), Some(24));
}

#[test]
fn header_len_with_options() {
    assert_eq!(header_len(&frame(24, 0x46, 0, 1)), Some(24));
    assert_eq!(header_len(&frame(60, 0x4f, 0, 1)), Some(60));
    assert_eq!(header_len(&frame(61, 0x4f, 0, 1)), Some(60));
}

#[test]
fn header_len_is_invalid_for_short_frames() {
    for len in 0..20usize {
        assert_eq!(header_len(&frame(len, 0x45, 0, 222)), None, "length {}", len);
    }
}

#[test]
fn header_len_is_invalid_below_20() {
    for words in 0..5u8 {
        assert_eq!(header_len(&frame(64, 0x40 | words, 0, 222)), None, "words {}", words);
    }
}

#[test]
fn header_len_is_invalid_beyond_the_frame() {
    assert_eq!(header_len(&frame(20, 0x46, 0, 222)), None);
    assert_eq!(header_len(&frame(23, 0x46, 0, 222)), None);
    assert_eq!(header_len(&frame(59, 0x4f, 0, 222)), None);
}

#[test]
fn protocol_is_byte_nine() {
    assert_eq!(protocol(&frame(20, 0x45, 0, 222)), Some(222));
    assert_eq!(protocol(&frame(10, 0x45, 0, 17)), Some(17));
    assert_eq!(protocol(&frame(10, 0x45, 0, 0)), Some(0));
}

#[test]
fn protocol_needs_ten_bytes() {
    for len in 0..10usize {
        assert_eq!(protocol(&frame(len, 0x45, 0, 222)), None, "length {}", len);
    }
}

#[test]
fn no_flag_and_no_offset_is_no_fragment() {
    assert!(!is_fragment(&frame(20, 0x45, 0x0000, 222)));
}

#[test]
fn more_fragments_flag_makes_a_fragment() {
    assert!(is_fragment(&frame(20, 0x45, 0x2000, 222)));
}

#[test]
fn nonzero_offset_makes_a_fragment() {
    assert!(is_fragment(&frame(20, 0x45, 0x0001, 222)));
    assert!(is_fragment(&frame(20, 0x45, 0x0100, 222)));
    assert!(is_fragment(&frame(20, 0x45, 0x1fff, 222)));
    assert!(is_fragment(&frame(20, 0x45, 0x3fff, 222)));
}

#[test]
fn other_flags_make_no_fragment() {
    // "Don't fragment" and the reserved bit say nothing of fragments.
    assert!(!is_fragment(&frame(20, 0x45, 0x4000, 222)));
    assert!(!is_fragment(&frame(20, 0x45, 0x8000, 222)));
    assert!(!is_fragment(&frame(20, 0x45, 0xc000, 222)));
    assert!(is_fragment(&frame(20, 0x45, 0x6000, 222)));
}

#[test]
fn short_frames_count_as_no_fragment() {
    for len in 0..8usize {
        assert!(!is_fragment(&vec![0xffu8; len]), "length {}", len);
    }
    assert!(is_fragment(&[0xffu8; 8]));
}
