//! One step of each forwarding direction.
//!
//! The program that owns the interface and the transport runs two loops. The
//! egress loop reads a packet from the interface, asks [`egress_step`] what to
//! do with it and sends what it is told to send. The ingress loop receives a
//! frame from the transport, asks [`ingress_step`] and writes what it is told
//! to deliver. Nothing here blocks, and no step remembers the one before.

use crate::codec::{
    all_base91_symbols, base91_decoded, base91_encoded, decode, encode, worst_case_len,
    worst_case_len_of,
};
use crate::config::Config;
use crate::ipv4::{
    announced_header_len, fragment_offset, header_len, header_len_of, is_fragment, is_fragment_of,
    more_fragments, protocol, protocol_of, MIN_HEADER_LEN,
};
use vstd::prelude::*;

verus! {

/// Why the admission guard turned a packet away.
#[derive(Debug, Clone, Copy, PartialEq, Eq, Structural)]
pub struct Oversize {
    /// Length of the inner packet.
    pub inner_len: usize,
    /// Estimated length of its encoding.
    pub estimate: usize,
    /// The outer path MTU that the estimate, with the outer header, exceeds.
    pub limit: u16,
}

/// Why a received frame was not delivered.
#[derive(Debug, Clone, Copy, PartialEq, Eq, Structural)]
pub enum DropReason {
    /// The frame has fewer than 20 bytes.
    TooShort,
    /// The frame is a fragment of an outer datagram.
    Fragment,
    /// The protocol field is not the tunnel's.
    ProtocolMismatch,
    /// The header length is below 20 or beyond the frame.
    BadHeaderLen,
    /// The header fills the frame.
    NoPayload,
    /// The payload decoded to nothing.
    EmptyDecode,
}

/// What the egress loop does with what it read from the interface.
#[derive(Debug, Clone, PartialEq, Eq)]
pub enum EgressAction {
    /// Nothing was read: go on with the next read.
    Skip,
    /// The packet is too long for the outer path: report and forget it.
    Drop(Oversize),
    /// Send these bytes to the peer, once.
    Send(Vec<u8>),
}

/// What the ingress loop does with a frame from the transport.
#[derive(Debug, Clone, PartialEq, Eq)]
pub enum IngressAction {
    /// Forget the frame.
    Discard(DropReason),
    /// Write these bytes to the interface.
    Deliver(Vec<u8>),
}

/// Room that the egress loop leaves beyond the interface MTU when it reads a
/// packet.
pub const READ_SLACK: usize = 64;

/// The longest datagram that IPv4 carries, and so the longest frame that the
/// ingress loop can receive.
pub const MAX_FRAME_LEN: usize = 65535;

/// Length of the buffer into which the egress loop reads one packet: the
/// interface MTU and some slack. Every packet that fits in it is one that
/// [`egress_step`] takes.
pub fn read_buffer_len(cfg: &Config) -> (len: usize)
    ensures
        len == cfg.mtu + READ_SLACK,
        len * 13 <= usize::MAX,
{
    cfg.mtu as usize + READ_SLACK
}

/// The length that the outer datagram of an inner packet of `n` bytes is
/// predicted to have: the estimate of the encoding, and 20 bytes of header.
pub open spec fn predicted_outer_len(n: nat) -> nat {
    worst_case_len_of(n) + 20
}

/// Whether an inner packet of `n` bytes may be sent: always where the guard
/// is off, else where its predicted outer length is within `outer_mtu`.
pub open spec fn admits(n: nat, outer_mtu: u16, guard: bool) -> bool {
    !guard || predicted_outer_len(n) <= outer_mtu
}

/// What is reported of a packet of `n` bytes that the guard turns away.
pub open spec fn oversize_of(n: nat, outer_mtu: u16) -> Oversize {
    Oversize { inner_len: n as usize, estimate: worst_case_len_of(n) as usize, limit: outer_mtu }
}

/// The admission guard: decides from its length alone, before anything is
/// encoded, whether an inner packet of `inner_len` bytes may be sent.
pub fn check_admission(inner_len: usize, outer_mtu: u16, guard: bool) -> (r: Result<(), Oversize>)
    requires
        predicted_outer_len(inner_len as nat) <= usize::MAX,
    ensures
        r is Ok <==> admits(inner_len as nat, outer_mtu, guard),
        r matches Err(o) ==> o == oversize_of(inner_len as nat, outer_mtu),
{
    let estimate: usize = worst_case_len(inner_len);
    let predicted: usize = estimate + MIN_HEADER_LEN;
    if guard && predicted > outer_mtu as usize {
        Err(Oversize { inner_len, estimate, limit: outer_mtu })
    } else {
        Ok(())
    }
}

/// What [`egress_step`] owes for a packet `pkt` read from the interface.
pub open spec fn egress_outcome(a: EgressAction, pkt: Seq<u8>, outer_mtu: u16, guard: bool) -> bool {
    match a {
        EgressAction::Skip => pkt.len() == 0,
        EgressAction::Drop(o) => {
            &&& pkt.len() > 0
            &&& !admits(pkt.len(), outer_mtu, guard)
            &&& o == oversize_of(pkt.len(), outer_mtu)
        },
        EgressAction::Send(payload) => {
            &&& pkt.len() > 0
            &&& admits(pkt.len(), outer_mtu, guard)
            &&& payload@ == base91_encoded(pkt)
            &&& base91_decoded(payload@) == pkt
            &&& all_base91_symbols(payload@)
            &&& payload@.len() > 0
        },
    }
}

/// Decides what becomes of `pkt`, the bytes of one read from the interface.
///
/// An empty read is skipped. A packet that the admission guard turns away is
/// dropped, and nothing is encoded. Any other packet is encoded, and the
/// encoding is what to send.
pub fn egress_step(pkt: &[u8], cfg: &Config) -> (a: EgressAction)
    requires
        pkt@.len() * 13 <= usize::MAX,
    ensures
        egress_outcome(a, pkt@, cfg.outer_mtu, cfg.drop_if_exceeds),
{
    let n: usize = pkt.len();
    if n == 0 {
        return EgressAction::Skip;
    }
    match check_admission(n, cfg.outer_mtu, cfg.drop_if_exceeds) {
        Err(o) => EgressAction::Drop(o),
        Ok(()) => EgressAction::Send(encode(pkt)),
    }
}

/// While the guard is on, whatever is sent was predicted to fit the outer
/// path: the estimate of its encoding and the 20 bytes of header are within
/// the outer MTU.
pub proof fn lemma_sent_packet_was_predicted_to_fit(a: EgressAction, pkt: Seq<u8>, outer_mtu: u16)
    requires
        egress_outcome(a, pkt, outer_mtu, true),
        a is Send,
    ensures
        worst_case_len_of(pkt.len()) + 20 <= outer_mtu,
{
}

/// The verdict on a received frame: the offset at which its payload starts,
/// or the first reason, in the order of the checks, to discard it.
pub open spec fn classification(frame: Seq<u8>, proto: u8) -> Result<usize, DropReason> {
    if frame.len() < 20 {
        Err(DropReason::TooShort)
    } else if is_fragment_of(frame) {
        Err(DropReason::Fragment)
    } else if protocol_of(frame) != Some(proto) {
        Err(DropReason::ProtocolMismatch)
    } else {
        match header_len_of(frame) {
            None => Err(DropReason::BadHeaderLen),
            Some(h) => if h >= frame.len() {
                Err(DropReason::NoPayload)
            } else {
                Ok(h)
            },
        }
    }
}

/// Classifies a received frame by its outer header alone. `Ok` carries the
/// length of the header, which is where the payload starts.
pub fn classify(frame: &[u8], proto: u8) -> (r: Result<usize, DropReason>)
    ensures
        r == classification(frame@, proto),
        r matches Ok(h) ==> 20 <= h < frame@.len(),
{
    if frame.len() < MIN_HEADER_LEN {
        return Err(DropReason::TooShort);
    }
    if is_fragment(frame) {
        return Err(DropReason::Fragment);
    }
    match protocol(frame) {
        Some(p) => {
            if p != proto {
                return Err(DropReason::ProtocolMismatch);
            }
        },
        None => {
            return Err(DropReason::ProtocolMismatch);
        },
    }
    let hlen: usize = match header_len(frame) {
        Some(l) => l,
        None => {
            return Err(DropReason::BadHeaderLen);
        },
    };
    if hlen >= frame.len() {
        return Err(DropReason::NoPayload);
    }
    Ok(hlen)
}

/// What becomes of a payload that decoded to `decoded`: an empty result is
/// discarded, any other is delivered as it is.
pub open spec fn delivery_of(a: IngressAction, decoded: Seq<u8>) -> bool {
    match a {
        IngressAction::Discard(reason) => decoded.len() == 0 && reason == DropReason::EmptyDecode,
        IngressAction::Deliver(packet) => decoded.len() > 0 && packet@ == decoded,
    }
}

/// Decides what becomes of the bytes that a payload decoded to.
pub fn deliver(decoded: Vec<u8>) -> (a: IngressAction)
    ensures
        delivery_of(a, decoded@),
{
    if decoded.len() == 0 {
        IngressAction::Discard(DropReason::EmptyDecode)
    } else {
        IngressAction::Deliver(decoded)
    }
}

/// What [`ingress_step`] owes for a received frame.
pub open spec fn ingress_outcome(a: IngressAction, frame: Seq<u8>, proto: u8) -> bool {
    match classification(frame, proto) {
        Err(reason) => a == IngressAction::Discard(reason),
        Ok(h) => delivery_of(a, base91_decoded(frame.subrange(h as int, frame.len() as int))),
    }
}

/// Every frame that passes classification has at least 20 bytes, is no
/// fragment, bears the tunnel's protocol number, and has a header length of
/// at least 20 bytes that leaves a payload behind it.
pub proof fn lemma_accepted_frame(frame: Seq<u8>, proto: u8)
    requires
        classification(frame, proto) is Ok,
    ensures
        frame.len() >= 20,
        !is_fragment_of(frame),
        protocol_of(frame) == Some(proto),
        header_len_of(frame) == Some(classification(frame, proto)->Ok_0),
        20 <= classification(frame, proto)->Ok_0 < frame.len(),
{
}

/// What the ingress step does with a frame of at least 20 bytes: one that
/// announces more fragments or sits at a nonzero offset is discarded as a
/// fragment, whatever its protocol; one that is no fragment but bears another
/// protocol number is discarded for that; and one that is no fragment, bears
/// the tunnel's number and has a valid header with bytes behind it has those
/// bytes decoded and, unless nothing came out, delivered.
pub proof fn lemma_ingress_verdicts(a: IngressAction, frame: Seq<u8>, proto: u8)
    requires
        frame.len() >= 20,
        ingress_outcome(a, frame, proto),
    ensures
        more_fragments(frame) || fragment_offset(frame) != 0 ==> a == IngressAction::Discard(
            DropReason::Fragment,
        ),
        !is_fragment_of(frame) && frame[9] != proto ==> a == IngressAction::Discard(
            DropReason::ProtocolMismatch,
        ),
        !is_fragment_of(frame) && frame[9] == proto && header_len_of(frame) is Some
            && header_len_of(frame)->Some_0 < frame.len() ==> delivery_of(
            a,
            base91_decoded(
                frame.subrange(header_len_of(frame)->Some_0 as int, frame.len() as int),
            ),
        ),
{
}

/// What one end sends, the other end delivers unchanged: when the peer puts
/// the payload of a `Send` behind a plain 20-byte header that bears the
/// tunnel's protocol number and no fragment bits, the ingress step on that
/// frame delivers the very packet that the egress step was given.
pub proof fn lemma_sent_packet_is_delivered(
    pkt: Seq<u8>,
    outer_mtu: u16,
    guard: bool,
    sent: EgressAction,
    header: Seq<u8>,
    proto: u8,
    got: IngressAction,
)
    requires
        egress_outcome(sent, pkt, outer_mtu, guard),
        sent is Send,
        header.len() == 20,
        announced_header_len(header) == 20,
        protocol_of(header) == Some(proto),
        !is_fragment_of(header),
        ingress_outcome(got, header + sent->Send_0@, proto),
    ensures
        got is Deliver,
        got->Deliver_0@ == pkt,
{
    let payload = sent->Send_0@;
    let frame = header + payload;
    assert(frame[0] == header[0]);
    assert(frame[6] == header[6]);
    assert(frame[7] == header[7]);
    assert(frame[9] == header[9]);
    assert(classification(frame, proto) == Ok::<usize, DropReason>(20usize));
    assert(frame.subrange(20, frame.len() as int) =~= payload);
}

/// Decides what becomes of `frame`, one datagram from the transport.
///
/// The frame is classified by its header. One that passes has the header cut
/// off and the rest decoded, and what comes out is delivered unless it is
/// empty.
pub fn ingress_step(frame: &[u8], cfg: &Config) -> (a: IngressAction)
    ensures
        ingress_outcome(a, frame@, cfg.ip_protocol),
{
    match classify(frame, cfg.ip_protocol) {
        Err(reason) => IngressAction::Discard(reason),
        Ok(hlen) => {
            let payload = &frame[hlen..frame.len()];
            deliver(decode(payload))
        },
    }
}

} // verus!
