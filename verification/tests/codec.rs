use raw91_tun::codec::{decode, encode, worst_case_len};

/// Bytes that look random but are the same on every run.
fn scrambled(len: usize, seed: u32) -> Vec<u8> {
    let mut state = seed;
    let mut out = Vec::with_capacity(len);
    for _ in 0..len {
        state = state.wrapping_mul(1_664_525).wrapping_add(1_013_904_223);
        out.push((state >> 24) as u8);
    }
    out
}

fn in_alphabet(b: u8) -> bool {
    (0x21..=0x7e).contains(&b) && b != b'\'' && b != b'-' && b != b'\\'
}

#[test]
fn encode_known_text() {
    assert_eq!(encode(b"test"), b"fPNKd".to_vec());
    assert_eq!(encode(b"vest"), b"hPNKd".to_vec());
    assert_eq!(
        encode(b"This is a random binary string"),
        b"nX,<:WRT%yxtYQ:mbr4JB*H[LR/@Qj{o0aU=Z".to_vec()
    );
}

#[test]
fn decode_known_text() {
    assert_eq!(decode(b"fPNKd"), b"test".to_vec());
    assert_eq!(decode(b"hPNKd"), b"vest".to_vec());
    assert_eq!(
        decode(b"nX,<:WRT%yxtYQ:mbr4JB*H[LR/@Qj{o0aU=Z"),
        b"This is a random binary string".to_vec()
    );
}

#[test]
fn encode_of_empty_is_empty() {
    assert_eq!(encode(&[]), Vec::<u8>::new());
}

#[test]
fn decode_of_empty_is_empty() {
    assert_eq!(decode(&[]), Vec::<u8>::new());
}

#[test]
fn round_trip_of_empty() {
    assert_eq!(decode(&encode(&[])), Vec::<u8>::new());
}

#[test]
fn round_trip_of_every_single_byte() {
    for b in 0..=255u8 {
        let x = [b];
        let enc = encode(&x);
        assert!(!enc.is_empty());
        assert_eq!(decode(&enc), x.to_vec(), "byte {}", b);
    }
}

#[test]
fn round_trip_of_every_pair_of_bytes() {
    for a in 0..=255u8 {
        for b in 0..=255u8 {
            let x = [a, b];
            assert_eq!(decode(&encode(&x)), x.to_vec());
        }
    }
}

#[test]
fn round_trip_of_binary_data() {
    for len in [3usize, 13, 64, 255, 1300, 1500, 4096] {
        let x = scrambled(len, len as u32 + 7);
        assert_eq!(decode(&encode(&x)), x, "length {}", len);
    }
}

#[test]
fn round_trip_of_uniform_data() {
    for len in [1usize, 2, 13, 100, 1300] {
        let zeros = vec![0u8; len];
        assert_eq!(decode(&encode(&zeros)), zeros);
        let ones = vec![0xffu8; len];
        assert_eq!(decode(&encode(&ones)), ones);
    }
}

#[test]
fn encoding_stays_in_the_alphabet() {
    let all: Vec<u8> = (0..=255u8).collect();
    assert!(encode(&all).iter().all(|&b| in_alphabet(b)));
    assert!(encode(&scrambled(2000, 1)).iter().all(|&b| in_alphabet(b)));
    assert!(encode(&[0u8; 64]).iter().all(|&b| in_alphabet(b)));
    assert!(encode(&[0xffu8; 64]).iter().all(|&b| in_alphabet(b)));
}

#[test]
fn decode_tolerates_what_no_encoder_wrote() {
    // Bytes outside the alphabet are passed over.
    assert_eq!(decode(&[0, 1, 2, b' ', b'-', b'\'', b'\\', 0x7f, 0xff]), Vec::<u8>::new());
    assert_eq!(decode(b"f P\nN-K'd"), b"test".to_vec());
    // A single symbol is half a pair; it still gives a byte.
    assert_eq!(decode(b"A"), vec![0u8]);
    // Whatever comes in, something comes back.
    let all: Vec<u8> = (0..=255u8).collect();
    let _ = decode(&all);
    let _ = decode(&scrambled(5000, 99));
}

#[test]
fn worst_case_len_is_123_percent_rounded_up() {
    assert_eq!(worst_case_len(0), 0);
    assert_eq!(worst_case_len(1), 2);
    assert_eq!(worst_case_len(2), 3);
    assert_eq!(worst_case_len(3), 4);
    assert_eq!(worst_case_len(99), 122);
    assert_eq!(worst_case_len(100), 123);
    assert_eq!(worst_case_len(101), 125);
    assert_eq!(worst_case_len(1300), 1599);
    assert_eq!(worst_case_len(1400), 1722);
    assert_eq!(worst_case_len(65_535), 80_609);
}

#[test]
fn worst_case_len_near_the_top() {
    // The largest `n` whose estimate still fits in `usize`.
    let n = ((usize::MAX as u128) * 100 / 123) as usize;
    let m = worst_case_len(n);
    assert!((m as u128) * 100 >= (n as u128) * 123);
    assert!((m as u128) * 100 < (n as u128) * 123 + 100);
}

#[test]
fn estimate_covers_typical_packets() {
    for len in [0usize, 1, 2, 20, 64, 100, 576, 1300, 1400, 1500] {
        let x = scrambled(len, 3);
        assert!(encode(&x).len() <= worst_case_len(len), "length {}", len);
        let zeros = vec![0u8; len];
        assert!(encode(&zeros).len() <= worst_case_len(len), "length {}", len);
    }
}

#[test]
fn estimate_covers_every_input_below_100_bytes() {
    // All bits set is the densest input: each pair of symbols then carries
    // 13 bits and never 14.
    for len in 0..100usize {
        let ones = vec![0xffu8; len];
        assert!(encode(&ones).len() <= worst_case_len(len), "length {}", len);
    }
}

#[test]
fn estimate_is_nominal_for_dense_input() {
    // Sixteen bytes out for every thirteen in is a little over 123 %.
    assert_eq!(encode(&[0xffu8; 100]).len(), 124);
    assert_eq!(worst_case_len(100), 123);
    assert_eq!(encode(&[0xffu8; 1300]).len(), 1600);
    assert_eq!(worst_case_len(1300), 1599);
}
