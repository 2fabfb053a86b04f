//! The byte codec: basE91 in both directions, and a cheap estimate of how
//! long an encoding gets.

use vstd::prelude::*;

verus! {

/// What `base91::slice_encode` returns for `data`.
pub uninterp spec fn base91_encoded(data: Seq<u8>) -> Seq<u8>;

/// What `base91::slice_decode` returns for `text`.
pub uninterp spec fn base91_decoded(text: Seq<u8>) -> Seq<u8>;

/// The basE91 alphabet: the 94 printable ASCII characters without the
/// apostrophe, the hyphen and the backslash.
pub open spec fn is_base91_symbol(b: u8) -> bool {
    0x21 <= b <= 0x7e && b != 0x27 && b != 0x2d && b != 0x5c
}

/// Every byte of `text` is a symbol of the basE91 alphabet.
pub open spec fn all_base91_symbols(text: Seq<u8>) -> bool {
    forall|i: int| 0 <= i < text.len() ==> is_base91_symbol(#[trigger] text[i])
}

/// Trusted: `base91::slice_encode`, the canonical basE91 encoder.
///
/// Claimed of it, and not proved here: its result depends on the input bytes
/// alone; `base91::slice_decode` maps that result back to the input; every
/// byte it emits comes from the table of 91 symbols; and it emits nothing for
/// an empty input and something for any other. The precondition keeps
/// `value.len() * 13`, which the encoder computes to size its buffer, within
/// `usize`.
pub assume_specification[ base91::slice_encode ](value: &[u8]) -> (out: Vec<u8>)
    requires
        value@.len() * 13 <= usize::MAX,
    ensures
        out@ == base91_encoded(value@),
        base91_decoded(out@) == value@,
        all_base91_symbols(out@),
        out@.len() == 0 <==> value@.len() == 0,
;

/// Trusted: `base91::slice_decode`, the canonical basE91 decoder.
///
/// Claimed of it, and not proved here: it returns for every input, also one
/// that no encoder produced; its result depends on the input bytes alone; and
/// it emits nothing for an empty input.
pub assume_specification[ base91::slice_decode ](value: &[u8]) -> (out: Vec<u8>)
    ensures
        out@ == base91_decoded(value@),
        value@.len() == 0 ==> out@.len() == 0,
;

/// Encodes `src` into the basE91 alphabet.
///
/// Defined for every byte string, text or not, and reversible: decoding the
/// result gives `src` back. The encoder allots 13/10 of the input's length
/// before it starts, so that length times 13 has to fit in `usize`.
pub fn encode(src: &[u8]) -> (out: Vec<u8>)
    requires
        src@.len() * 13 <= usize::MAX,
    ensures
        out@ == base91_encoded(src@),
        base91_decoded(out@) == src@,
        all_base91_symbols(out@),
        out@.len() == 0 <==> src@.len() == 0,
{
    base91::slice_encode(src)
}

/// Decodes basE91 text, the inverse of [`encode`].
///
/// Input that no encoder produced is tolerated: the bytes that come out of it
/// are whatever the decoder makes of them. Empty input gives an empty result.
pub fn decode(src: &[u8]) -> (out: Vec<u8>)
    ensures
        out@ == base91_decoded(src@),
        src@.len() == 0 ==> out@.len() == 0,
{
    base91::slice_decode(src)
}

/// The estimate of the encoded length of `n` bytes: `n * 123 / 100`, rounded up.
pub open spec fn worst_case_len_of(n: nat) -> nat {
    (n * 123 + 99) / 100
}

/// Estimates the length of the encoding of `n` bytes as 123 % of `n`, rounded
/// up to a whole byte. No allocation, no look at the data.
///
/// The result is the least `m` with `100 * m >= 123 * n`, and has to fit in
/// `usize`. This is the nominal expansion of basE91, by which the admission
/// guard goes. Bytes with most of their bits set take 16 bytes for every 13,
/// so a dense input can come out a little longer than the estimate.
pub fn worst_case_len(n: usize) -> (m: usize)
    requires
        worst_case_len_of(n as nat) <= usize::MAX,
    ensures
        m == worst_case_len_of(n as nat),
        100 * m >= 123 * n,
        100 * m < 123 * n + 100,
{
    let scaled: u128 = (n as u128) * 123 + 99;
    (scaled / 100) as usize
}

} // verus!
