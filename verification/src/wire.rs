//! The message that carries one feature set over the network: a bundle
//! of addressed values under a time tag.
//!
//! The types here hold, as plain values, what the library reads from a
//! packet and what it puts into one. Laying a packet out as bytes is left
//! to the caller; taking a datagram apart is done in [`crate::receiver`].

use vstd::prelude::*;
use vstd::utf8::encode_utf8_decode_utf8;
use crate::features::{AudioFeatures, Feature, Features};

verus! {

/// The address of the overall root mean square.
pub const OSC_ADDR_RMS: &'static str = "/lt/rms";

/// The address of the bass band's root mean square.
pub const OSC_ADDR_BASS: &'static str = "/lt/bass";

/// The address of the mid band's root mean square.
pub const OSC_ADDR_MID: &'static str = "/lt/mid";

/// The address of the treble band's root mean square.
pub const OSC_ADDR_TREBLE: &'static str = "/lt/treble";

/// The address of the zero-crossing rate.
pub const OSC_ADDR_ZCR: &'static str = "/lt/zcr";

/// The address of the spectral centroid.
pub const OSC_ADDR_CENTROID: &'static str = "/lt/centroid";

/// The address of the spectral flux.
pub const OSC_ADDR_FLUX: &'static str = "/lt/flux";

/// The address of the spectral rolloff.
pub const OSC_ADDR_ROLLOFF: &'static str = "/lt/rolloff";

/// The address of the total variation.
pub const OSC_ADDR_TV: &'static str = "/lt/tv";

/// The order in which the features stand in a bundle.
pub open spec fn wire_order() -> Seq<Feature> {
    seq![
        Feature::Rms,
        Feature::Bass,
        Feature::Mid,
        Feature::Treble,
        Feature::Zcr,
        Feature::Centroid,
        Feature::Flux,
        Feature::RollOff,
        Feature::Tv,
    ]
}

/// The address under which a feature travels.
pub open spec fn address_of(feature: Feature) -> Seq<char> {
    match feature {
        Feature::Rms => OSC_ADDR_RMS@,
        Feature::Bass => OSC_ADDR_BASS@,
        Feature::Mid => OSC_ADDR_MID@,
        Feature::Treble => OSC_ADDR_TREBLE@,
        Feature::Zcr => OSC_ADDR_ZCR@,
        Feature::Centroid => OSC_ADDR_CENTROID@,
        Feature::Flux => OSC_ADDR_FLUX@,
        Feature::RollOff => OSC_ADDR_ROLLOFF@,
        Feature::Tv => OSC_ADDR_TV@,
    }
}

/// The feature that travels under an address, if there is one.
pub open spec fn feature_at(addr: Seq<char>) -> Option<Feature> {
    if addr == OSC_ADDR_RMS@ {
        Some(Feature::Rms)
    } else if addr == OSC_ADDR_BASS@ {
        Some(Feature::Bass)
    } else if addr == OSC_ADDR_MID@ {
        Some(Feature::Mid)
    } else if addr == OSC_ADDR_TREBLE@ {
        Some(Feature::Treble)
    } else if addr == OSC_ADDR_ZCR@ {
        Some(Feature::Zcr)
    } else if addr == OSC_ADDR_CENTROID@ {
        Some(Feature::Centroid)
    } else if addr == OSC_ADDR_FLUX@ {
        Some(Feature::Flux)
    } else if addr == OSC_ADDR_ROLLOFF@ {
        Some(Feature::RollOff)
    } else if addr == OSC_ADDR_TV@ {
        Some(Feature::Tv)
    } else {
        None
    }
}

/// No two features share an address: looking up the address of a feature
/// gives that feature back.
pub proof fn addresses_are_distinct(feature: Feature)
    ensures
        feature_at(address_of(feature)) == Some(feature),
{
    reveal_strlit("/lt/rms");
    reveal_strlit("/lt/bass");
    reveal_strlit("/lt/mid");
    reveal_strlit("/lt/treble");
    reveal_strlit("/lt/zcr");
    reveal_strlit("/lt/centroid");
    reveal_strlit("/lt/flux");
    reveal_strlit("/lt/rolloff");
    reveal_strlit("/lt/tv");
    assert(OSC_ADDR_RMS@.len() == 7 && OSC_ADDR_RMS@[4] == 'r');
    assert(OSC_ADDR_BASS@.len() == 8 && OSC_ADDR_BASS@[4] == 'b');
    assert(OSC_ADDR_MID@.len() == 7 && OSC_ADDR_MID@[4] == 'm');
    assert(OSC_ADDR_TREBLE@.len() == 10 && OSC_ADDR_TREBLE@[4] == 't');
    assert(OSC_ADDR_ZCR@.len() == 7 && OSC_ADDR_ZCR@[4] == 'z');
    assert(OSC_ADDR_CENTROID@.len() == 12);
    assert(OSC_ADDR_FLUX@.len() == 8 && OSC_ADDR_FLUX@[4] == 'f');
    assert(OSC_ADDR_ROLLOFF@.len() == 11);
    assert(OSC_ADDR_TV@.len() == 6);
}

/// Tells whether two strings hold the same characters.
fn same_text(a: &str, b: &str) -> (r: bool)
    ensures
        r == (a@ == b@),
{
    let x = a.as_bytes();
    let y = b.as_bytes();
    proof {
        encode_utf8_decode_utf8(a@);
        encode_utf8_decode_utf8(b@);
    }
    if x.len() != y.len() {
        return false;
    }
    let mut i: usize = 0;
    while i < x.len()
        invariant
            x@ == vstd::utf8::encode_utf8(a@),
            y@ == vstd::utf8::encode_utf8(b@),
            x@.len() == y@.len(),
            i <= x@.len(),
            forall|j: int| 0 <= j < i ==> x@[j] == y@[j],
        decreases x@.len() - i,
    {
        if x[i] != y[i] {
            return false;
        }
        i += 1;
    }
    assert(x@ =~= y@);
    true
}

/// The address under which a feature travels.
pub fn address(feature: Feature) -> (r: &'static str)
    ensures
        r@ == address_of(feature),
{
    match feature {
        Feature::Rms => OSC_ADDR_RMS,
        Feature::Bass => OSC_ADDR_BASS,
        Feature::Mid => OSC_ADDR_MID,
        Feature::Treble => OSC_ADDR_TREBLE,
        Feature::Zcr => OSC_ADDR_ZCR,
        Feature::Centroid => OSC_ADDR_CENTROID,
        Feature::Flux => OSC_ADDR_FLUX,
        Feature::RollOff => OSC_ADDR_ROLLOFF,
        Feature::Tv => OSC_ADDR_TV,
    }
}

/// Looks an address up. An address that belongs to no feature gives `None`.
pub fn feature_of_address(addr: &str) -> (r: Option<Feature>)
    ensures
        r == feature_at(addr@),
{
    if same_text(addr, OSC_ADDR_RMS) {
        Some(Feature::Rms)
    } else if same_text(addr, OSC_ADDR_BASS) {
        Some(Feature::Bass)
    } else if same_text(addr, OSC_ADDR_MID) {
        Some(Feature::Mid)
    } else if same_text(addr, OSC_ADDR_TREBLE) {
        Some(Feature::Treble)
    } else if same_text(addr, OSC_ADDR_ZCR) {
        Some(Feature::Zcr)
    } else if same_text(addr, OSC_ADDR_CENTROID) {
        Some(Feature::Centroid)
    } else if same_text(addr, OSC_ADDR_FLUX) {
        Some(Feature::Flux)
    } else if same_text(addr, OSC_ADDR_ROLLOFF) {
        Some(Feature::RollOff)
    } else if same_text(addr, OSC_ADDR_TV) {
        Some(Feature::Tv)
    } else {
        None
    }
}

/// One argument of a message. Only a single-precision number is read, by
/// its bit pattern; an argument of any other type keeps its place and
/// nothing else.
#[derive(Clone, Copy, Debug, PartialEq, Eq, Structural)]
pub enum Argument {
    Float(u32),
    Other,
}

/// An address with its arguments.
#[derive(Debug)]
pub struct Message {
    pub addr: String,
    pub args: Vec<Argument>,
}

/// What a message holds.
pub struct MessageView {
    pub addr: Seq<char>,
    pub args: Seq<Argument>,
}

impl View for Message {
    type V = MessageView;

    open spec fn view(&self) -> MessageView {
        MessageView { addr: self.addr@, args: self.args@ }
    }
}

/// One element of a bundle: a message, or a bundle inside the bundle, of
/// which nothing is read.
#[derive(Debug)]
pub enum Element {
    Message(Message),
    Nested,
}

/// What an element of a bundle holds.
pub enum ElementView {
    Message(MessageView),
    Nested,
}

impl View for Element {
    type V = ElementView;

    open spec fn view(&self) -> ElementView {
        match self {
            Element::Message(message) => ElementView::Message(message@),
            Element::Nested => ElementView::Nested,
        }
    }
}

impl DeepView for Element {
    type V = ElementView;

    open spec fn deep_view(&self) -> ElementView {
        self@
    }
}

/// A time tag and the elements under it. The time tag is a pair: whole
/// seconds first, then the fraction of the second that has begun, which
/// the broadcaster counts in microseconds.
#[derive(Debug)]
pub struct Bundle {
    pub time: (u32, u32),
    pub content: Vec<Element>,
}

/// What a bundle holds.
pub struct BundleView {
    pub time: (u32, u32),
    pub content: Seq<ElementView>,
}

impl View for Bundle {
    type V = BundleView;

    open spec fn view(&self) -> BundleView {
        BundleView { time: self.time, content: self.content.deep_view() }
    }
}

/// What a datagram holds: a single message or a bundle.
#[derive(Debug)]
pub enum Packet {
    Message(Message),
    Bundle(Bundle),
}

/// What a packet holds.
pub enum PacketView {
    Message(MessageView),
    Bundle(BundleView),
}

impl View for Packet {
    type V = PacketView;

    open spec fn view(&self) -> PacketView {
        match self {
            Packet::Message(message) => PacketView::Message(message@),
            Packet::Bundle(bundle) => PacketView::Bundle(bundle@),
        }
    }
}

/// The message that carries one feature.
pub open spec fn feature_message(feature: Feature, bits: u32) -> MessageView {
    MessageView { addr: address_of(feature), args: seq![Argument::Float(bits)] }
}

/// The bundle that carries a feature set: one message for each feature,
/// in wire order, each with the feature's value as its only argument.
pub open spec fn features_bundle(features: Features, time: (u32, u32)) -> BundleView {
    BundleView {
        time,
        content: Seq::new(
            9,
            |i: int|
                ElementView::Message(
                    feature_message(wire_order()[i], features.value(wire_order()[i])),
                ),
        ),
    }
}

/// The feature set after a message has been taken in. The message counts
/// if its address belongs to a feature and its first argument is a
/// single-precision number: that number becomes the feature's value. Any
/// other message changes nothing.
pub open spec fn message_applied(message: MessageView, features: Features) -> Features {
    if message.args.len() > 0 && message.args[0] is Float && feature_at(message.addr) is Some {
        features.replaced(feature_at(message.addr)->Some_0, message.args[0]->Float_0)
    } else {
        features
    }
}

/// The feature set after one element of a bundle has been taken in.
pub open spec fn element_applied(element: ElementView, features: Features) -> Features {
    match element {
        ElementView::Message(message) => message_applied(message, features),
        ElementView::Nested => features,
    }
}

/// The feature set after the elements of a bundle have been taken in, one
/// after the other.
pub open spec fn content_applied(content: Seq<ElementView>, features: Features) -> Features
    decreases content.len(),
{
    if content.len() == 0 {
        features
    } else {
        element_applied(content.last(), content_applied(content.drop_last(), features))
    }
}

/// The feature set after a packet has been taken in. A packet that is a
/// single message changes nothing.
pub open spec fn packet_applied(packet: PacketView, features: Features) -> Features {
    match packet {
        PacketView::Message(_) => features,
        PacketView::Bundle(bundle) => content_applied(bundle.content, features),
    }
}

/// Builds the message that carries one feature.
fn message_for(feature: Feature, bits: u32) -> (r: Message)
    ensures
        r@ == feature_message(feature, bits),
{
    let mut args: Vec<Argument> = Vec::new();
    args.push(Argument::Float(bits));
    let r = Message { addr: address(feature).to_owned(), args };
    assert(r@.args =~= seq![Argument::Float(bits)]);
    r
}

/// Builds the bundle that carries a feature set under a time tag.
pub fn features_to_osc(features: Features, secs: u32, frac: u32) -> (r: Packet)
    ensures
        r@ == PacketView::Bundle(features_bundle(features, (secs, frac))),
{
    let mut content: Vec<Element> = Vec::new();
    content.push(Element::Message(message_for(Feature::Rms, features.rms)));
    content.push(Element::Message(message_for(Feature::Bass, features.bass)));
    content.push(Element::Message(message_for(Feature::Mid, features.mid)));
    content.push(Element::Message(message_for(Feature::Treble, features.treble)));
    content.push(Element::Message(message_for(Feature::Zcr, features.zcr)));
    content.push(Element::Message(message_for(Feature::Centroid, features.centroid)));
    content.push(Element::Message(message_for(Feature::Flux, features.flux)));
    content.push(Element::Message(message_for(Feature::RollOff, features.rolloff)));
    content.push(Element::Message(message_for(Feature::Tv, features.tv)));
    let time = (secs, frac);
    let bundle = Bundle { time, content };
    assert(bundle@.content =~= features_bundle(features, time).content);
    Packet::Bundle(bundle)
}

/// Takes one message into a store.
fn handle_message(message: &Message, audio_features: &mut AudioFeatures)
    ensures
        final(audio_features)@ == message_applied(message@, old(audio_features)@),
{
    if message.args.len() == 0 {
        return ;
    }
    match message.args[0] {
        Argument::Float(bits) => {
            match feature_of_address(message.addr.as_str()) {
                Some(feature) => {
                    audio_features.set(feature, bits);
                },
                None => {},
            }
        },
        Argument::Other => {},
    }
}

/// Takes a packet into a store: every message of a bundle that carries a
/// feature sets that feature, in the order of the bundle, so that the last
/// message for a feature decides. Messages under other addresses, messages
/// without a number in front, bundles inside the bundle and a packet that
/// is a single message leave the store as it is.
pub fn handle_packet(packet: &Packet, audio_features: &mut AudioFeatures)
    ensures
        final(audio_features)@ == packet_applied(packet@, old(audio_features)@),
{
    match packet {
        Packet::Message(_) => {},
        Packet::Bundle(bundle) => {
            let mut i: usize = 0;
            while i < bundle.content.len()
                invariant
                    i <= bundle.content@.len(),
                    audio_features@ == content_applied(
                        bundle@.content.take(i as int),
                        old(audio_features)@,
                    ),
                decreases bundle.content@.len() - i,
            {
                proof {
                    let next = bundle@.content.take(i + 1);
                    assert(next.drop_last() =~= bundle@.content.take(i as int));
                    assert(next.last() == bundle.content@[i as int]@);
                }
                match &bundle.content[i] {
                    Element::Message(message) => {
                        handle_message(message, audio_features);
                    },
                    Element::Nested => {},
                }
                i += 1;
            }
            assert(bundle@.content.take(bundle.content@.len() as int) =~= bundle@.content);
        },
    }
}

/// The place of a feature in wire order.
pub open spec fn wire_index(feature: Feature) -> int {
    match feature {
        Feature::Rms => 0,
        Feature::Bass => 1,
        Feature::Mid => 2,
        Feature::Treble => 3,
        Feature::Zcr => 4,
        Feature::Centroid => 5,
        Feature::Flux => 6,
        Feature::RollOff => 7,
        Feature::Tv => 8,
    }
}

/// After the first `taken` messages of a feature set's bundle, the features
/// they carry have the sender's values and the others are untouched.
proof fn bundle_prefix_applied(features: Features, time: (u32, u32), before: Features, taken: int)
    requires
        0 <= taken <= 9,
    ensures
        forall|feature: Feature|
            #![trigger wire_index(feature)]
            content_applied(features_bundle(features, time).content.take(taken), before).value(
                feature,
            ) == if wire_index(feature) < taken {
                features.value(feature)
            } else {
                before.value(feature)
            },
    decreases taken,
{
    let content = features_bundle(features, time).content;
    if taken > 0 {
        bundle_prefix_applied(features, time, before, taken - 1);
        let carried = wire_order()[taken - 1];
        addresses_are_distinct(carried);
        assert(content.take(taken).drop_last() =~= content.take(taken - 1));
        assert(content.take(taken).last() == ElementView::Message(
            feature_message(carried, features.value(carried)),
        ));
        assert(wire_index(carried) == taken - 1);
    }
}

/// A feature set that is put into a bundle and taken out of it again is
/// the set that was put in, bit for bit, whatever the store held before.
pub proof fn bundle_round_trip(features: Features, time: (u32, u32), before: Features)
    ensures
        packet_applied(PacketView::Bundle(features_bundle(features, time)), before) == features,
{
    let content = features_bundle(features, time).content;
    bundle_prefix_applied(features, time, before, 9);
    assert(content.take(9) =~= content);
    let after = content_applied(content, before);
    assert(wire_index(Feature::Rms) == 0);
    assert(wire_index(Feature::Bass) == 1);
    assert(wire_index(Feature::Mid) == 2);
    assert(wire_index(Feature::Treble) == 3);
    assert(wire_index(Feature::Zcr) == 4);
    assert(wire_index(Feature::Centroid) == 5);
    assert(wire_index(Feature::Flux) == 6);
    assert(wire_index(Feature::RollOff) == 7);
    assert(wire_index(Feature::Tv) == 8);
    assert(after.value(Feature::Rms) == features.value(Feature::Rms));
    assert(after.value(Feature::Bass) == features.value(Feature::Bass));
    assert(after.value(Feature::Mid) == features.value(Feature::Mid));
    assert(after.value(Feature::Treble) == features.value(Feature::Treble));
    assert(after.value(Feature::Zcr) == features.value(Feature::Zcr));
    assert(after.value(Feature::Centroid) == features.value(Feature::Centroid));
    assert(after.value(Feature::Flux) == features.value(Feature::Flux));
    assert(after.value(Feature::RollOff) == features.value(Feature::RollOff));
    assert(after.value(Feature::Tv) == features.value(Feature::Tv));
}

/// The element addresses the feature: it is a message under the feature's
/// address.
pub open spec fn element_addresses(element: ElementView, feature: Feature) -> bool {
    element is Message && feature_at(element->Message_0.addr) == Some(feature)
}

/// A feature that no message of a bundle addresses keeps its value. So a
/// message under an address that belongs to no feature changes nothing at
/// all.
pub proof fn unaddressed_feature_is_kept(
    content: Seq<ElementView>,
    before: Features,
    feature: Feature,
)
    requires
        forall|i: int|
            0 <= i < content.len() ==> !element_addresses(#[trigger] content[i], feature),
    ensures
        content_applied(content, before).value(feature) == before.value(feature),
    decreases content.len(),
{
    if content.len() > 0 {
        unaddressed_feature_is_kept(content.drop_last(), before, feature);
        assert(!element_addresses(content[content.len() - 1], feature));
    }
}

/// The time tag of a bundle sent `elapsed_secs` seconds and
/// `elapsed_micros` microseconds after a start that lay `epoch_secs`
/// seconds after the epoch: the seconds are added up and cut to their low
/// 32 bits, the microseconds are passed on.
pub fn time_tag(epoch_secs: u64, elapsed_secs: u64, elapsed_micros: u32) -> (r: (u32, u32))
    ensures
        r.0 == (epoch_secs + elapsed_secs) % 0x1_0000_0000,
        r.1 == elapsed_micros,
{
    let low_epoch: u64 = epoch_secs % 0x1_0000_0000;
    let low_elapsed: u64 = elapsed_secs % 0x1_0000_0000;
    let sum: u64 = (low_epoch + low_elapsed) % 0x1_0000_0000;
    proof {
        vstd::arithmetic::div_mod::lemma_add_mod_noop(
            epoch_secs as int,
            elapsed_secs as int,
            0x1_0000_0000,
        );
    }
    (sum as u32, elapsed_micros)
}

} // verus!
