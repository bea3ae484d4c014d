//! The receiving side: a datagram is taken apart and what it carries is
//! taken into a store.

use vstd::prelude::*;
use rosc::{OscError, OscMessage, OscPacket, OscType};
use crate::features::AudioFeatures;
use crate::wire::{
    handle_packet, packet_applied, Argument, Bundle, Element, Message, Packet, PacketView,
};

verus! {

/// The longest datagram that is taken apart, in bytes.
pub const MTU: usize = 1536;

/// The error of `rosc`'s decoder. Nothing of it is read but its text.
#[verifier::external_type_specification]
#[verifier::external_body]
pub struct ExOscError(OscError);

/// Why a datagram was dropped.
#[derive(Debug)]
pub enum DecodeError {
    /// The datagram is longer than `MTU` bytes.
    TooLong,
    /// The datagram is no packet; the text says what is wrong with it.
    Malformed(String),
}

/// What `rosc::decoder::decode_udp` makes of a datagram: the packet, or
/// `None` where it reports an error.
pub uninterp spec fn decoded(datagram: Seq<u8>) -> Option<PacketView>;

/// Calls `rosc::decoder::decode_udp` and copies the packet it returns into
/// the library's own types, field by field: an argument that is a
/// single-precision number by its bit pattern, any other as
/// `Argument::Other`, a bundle inside the bundle as `Element::Nested`.
/// Bytes that follow the packet are dropped.
///
/// The decoder takes a bundle inside a bundle apart by calling itself; the
/// bound on the datagram's length keeps that depth small.
///
/// Trusted: that the decoder returns for the same bytes the same packet
/// or, every time, an error.
#[verifier::external_body]
fn decode(datagram: &[u8]) -> (r: Result<Packet, OscError>)
    requires
        datagram@.len() <= MTU,
    ensures
        decoded(datagram@) == match r {
            Ok(packet) => Some(packet@),
            Err(_) => None::<PacketView>,
        },
{
    let arg = |a: OscType| a.float().map_or(Argument::Other, |v| Argument::Float(v.to_bits()));
    let msg = |m: OscMessage| Message { addr: m.addr, args: m.args.into_iter().map(arg).collect() };
    let element = |p: OscPacket| match p {
        OscPacket::Message(m) => Element::Message(msg(m)),
        OscPacket::Bundle(_) => Element::Nested,
    };
    Ok(match rosc::decoder::decode_udp(datagram)?.1 {
        OscPacket::Message(m) => Packet::Message(msg(m)),
        OscPacket::Bundle(b) => Packet::Bundle(Bundle {
            time: b.timetag.into(),
            content: b.content.into_iter().map(element).collect(),
        }),
    })
}

/// Calls `to_string` on a `rosc::OscError`: the text that its `Display`
/// writes. Nothing is claimed of the text.
#[verifier::external_body]
fn error_text(error: &OscError) -> String {
    error.to_string()
}

/// Takes a datagram into a store.
///
/// A datagram that decodes is applied as `handle_packet` says. A datagram
/// that does not decode, or that is longer than `MTU` bytes, is dropped:
/// the store keeps every value it had.
pub fn receive(datagram: &[u8], audio_features: &mut AudioFeatures) -> (r: Result<
    (),
    DecodeError,
>)
    ensures
        datagram@.len() > MTU ==> r is Err && r->Err_0 is TooLong && final(audio_features)@ == old(
            audio_features,
        )@,
        datagram@.len() <= MTU && decoded(datagram@) is None ==> r is Err && r->Err_0 is Malformed
            && final(audio_features)@ == old(audio_features)@,
        datagram@.len() <= MTU && decoded(datagram@) is Some ==> r is Ok && final(audio_features)@
            == packet_applied(decoded(datagram@)->Some_0, old(audio_features)@),
{
    if datagram.len() > MTU {
        return Err(DecodeError::TooLong);
    }
    match decode(datagram) {
        Ok(packet) => {
            handle_packet(&packet, audio_features);
            Ok(())
        },
        Err(error) => Err(DecodeError::Malformed(error_text(&error))),
    }
}

} // verus!
