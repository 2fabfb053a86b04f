//! Reading the outer IPv4 header of a received frame: its length, its
//! protocol field and whether the frame is a fragment.

use vstd::prelude::*;

verus! {

/// Length of an IPv4 header without options, the shortest there is.
pub const MIN_HEADER_LEN: usize = 20;

/// The header length that byte 0 announces: its low four bits count 32-bit
/// words.
pub open spec fn announced_header_len(frame: Seq<u8>) -> nat
    recommends
        frame.len() >= 1,
{
    4 * (frame[0] as nat % 16)
}

/// The header length of `frame`, where it is one: the frame has at least 20
/// bytes, and the announced length is at least 20 and at most the frame's own
/// length.
pub open spec fn header_len_of(frame: Seq<u8>) -> Option<usize> {
    if frame.len() >= 20 && 20 <= announced_header_len(frame) <= frame.len() {
        Some(announced_header_len(frame) as usize)
    } else {
        None
    }
}

/// The protocol field, byte 9, of a frame that reaches that far.
pub open spec fn protocol_of(frame: Seq<u8>) -> Option<u8> {
    if frame.len() >= 10 {
        Some(frame[9])
    } else {
        None
    }
}

/// The 16-bit big-endian word in bytes 6 and 7: three flag bits above
/// thirteen bits of fragment offset.
pub open spec fn flags_and_offset(frame: Seq<u8>) -> nat
    recommends
        frame.len() >= 8,
{
    frame[6] as nat * 256 + frame[7] as nat
}

/// The "more fragments" flag: bit `0x2000` of the word, which is bit `0x20`
/// of byte 6.
pub open spec fn more_fragments(frame: Seq<u8>) -> bool
    recommends
        frame.len() >= 8,
{
    (flags_and_offset(frame) / 0x2000) % 2 == 1
}

/// The fragment offset: the low 13 bits of the word.
pub open spec fn fragment_offset(frame: Seq<u8>) -> nat
    recommends
        frame.len() >= 8,
{
    flags_and_offset(frame) % 0x2000
}

/// A frame is a fragment if it is long enough to tell and either announces
/// more fragments or sits at a nonzero offset.
pub open spec fn is_fragment_of(frame: Seq<u8>) -> bool {
    frame.len() >= 8 && (more_fragments(frame) || fragment_offset(frame) != 0)
}

/// Returns the length in bytes of the IPv4 header that `pkt` starts with, or
/// `None` where `pkt` is shorter than 20 bytes or announces a header shorter
/// than 20 bytes or longer than `pkt` itself.
pub fn header_len(pkt: &[u8]) -> (r: Option<usize>)
    ensures
        r == header_len_of(pkt@),
        r matches Some(len) ==> 20 <= len <= pkt@.len() && len <= 60 && len % 4 == 0,
{
    if pkt.len() < MIN_HEADER_LEN {
        return None;
    }
    let first: u8 = pkt[0];
    let ihl_words: u8 = first & 0x0f;
    assert(ihl_words == first % 16) by (bit_vector)
        requires
            ihl_words == first & 0x0f,
    ;
    let len: usize = (ihl_words as usize) * 4;
    if len < MIN_HEADER_LEN || len > pkt.len() {
        return None;
    }
    Some(len)
}

/// Returns the protocol field of the IPv4 header, or `None` where `pkt` has
/// fewer than 10 bytes.
pub fn protocol(pkt: &[u8]) -> (r: Option<u8>)
    ensures
        r == protocol_of(pkt@),
{
    if pkt.len() < 10 {
        return None;
    }
    Some(pkt[9])
}

/// Tells whether `pkt` is a fragment of a larger datagram: whether its "more
/// fragments" flag is set or its fragment offset is not zero. A frame of
/// fewer than 8 bytes counts as no fragment.
pub fn is_fragment(pkt: &[u8]) -> (r: bool)
    ensures
        r == is_fragment_of(pkt@),
{
    if pkt.len() < 8 {
        return false;
    }
    let hi: u8 = pkt[6];
    let lo: u8 = pkt[7];
    let word: u16 = ((hi as u16) << 8) | (lo as u16);
    let off: u16 = word & 0x1fff;
    let mf: bool = (hi & 0x20) != 0;
    assert(word == hi as u16 * 256 + lo as u16) by (bit_vector)
        requires
            word == ((hi as u16) << 8) | (lo as u16),
    ;
    assert(off == word % 0x2000) by (bit_vector)
        requires
            off == word & 0x1fff,
    ;
    assert(((hi & 0x20) != 0) == ((word / 0x2000) % 2 == 1)) by (bit_vector)
        requires
            word == ((hi as u16) << 8) | (lo as u16),
    ;
    mf || off != 0
}

} // verus!
