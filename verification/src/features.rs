//! The feature set of one analysis cycle and the store that keeps the
//! latest one.
//!
//! Each descriptor is held as the bit pattern of a single-precision number
//! (see [`crate::binary32`]).

use vstd::prelude::*;
use crate::binary32::{
    clamp_unit, clamped_to_unit, finite_or_zero, finite_or_zeroed, in_unit_interval, is_finite,
    is_nan,
};

verus! {

/// The name of one descriptor.
#[derive(Clone, Copy, Debug, PartialEq, Eq, Structural)]
pub enum Feature {
    /// Root mean square of the whole spectrum.
    Rms,
    /// Root mean square of the band below 250 Hz.
    Bass,
    /// Root mean square of the band from 250 Hz to 4000 Hz.
    Mid,
    /// Root mean square of the band from 4000 Hz to 15000 Hz.
    Treble,
    /// Zero-crossing rate of the samples.
    Zcr,
    /// Spectral centroid, as a fraction of the top bin's frequency.
    Centroid,
    /// Spectral flux against the previous frame.
    Flux,
    /// Spectral rolloff, as a fraction of the top bin's frequency.
    RollOff,
    /// Total variation of the magnitude spectrum.
    Tv,
}

/// One value for each descriptor: what an analysis cycle produces.
#[derive(Clone, Copy, Debug, PartialEq, Eq, Structural)]
pub struct Features {
    pub rms: u32,
    pub bass: u32,
    pub mid: u32,
    pub treble: u32,
    pub zcr: u32,
    pub centroid: u32,
    pub flux: u32,
    pub rolloff: u32,
    pub tv: u32,
}

impl Features {
    /// The set in which every descriptor is positive zero.
    pub open spec fn zeroed() -> Features {
        Features {
            rms: 0,
            bass: 0,
            mid: 0,
            treble: 0,
            zcr: 0,
            centroid: 0,
            flux: 0,
            rolloff: 0,
            tv: 0,
        }
    }

    /// The value of one descriptor.
    pub open spec fn value(self, feature: Feature) -> u32 {
        match feature {
            Feature::Rms => self.rms,
            Feature::Bass => self.bass,
            Feature::Mid => self.mid,
            Feature::Treble => self.treble,
            Feature::Zcr => self.zcr,
            Feature::Centroid => self.centroid,
            Feature::Flux => self.flux,
            Feature::RollOff => self.rolloff,
            Feature::Tv => self.tv,
        }
    }

    /// The set with one descriptor replaced.
    pub open spec fn replaced(self, feature: Feature, bits: u32) -> Features {
        match feature {
            Feature::Rms => Features { rms: bits, ..self },
            Feature::Bass => Features { bass: bits, ..self },
            Feature::Mid => Features { mid: bits, ..self },
            Feature::Treble => Features { treble: bits, ..self },
            Feature::Zcr => Features { zcr: bits, ..self },
            Feature::Centroid => Features { centroid: bits, ..self },
            Feature::Flux => Features { flux: bits, ..self },
            Feature::RollOff => Features { rolloff: bits, ..self },
            Feature::Tv => Features { tv: bits, ..self },
        }
    }

    /// Every descriptor is a finite number, and every descriptor but the
    /// total variation lies between zero and one.
    pub open spec fn well_formed(self) -> bool {
        &&& in_unit_interval(self.rms)
        &&& in_unit_interval(self.bass)
        &&& in_unit_interval(self.mid)
        &&& in_unit_interval(self.treble)
        &&& in_unit_interval(self.zcr)
        &&& in_unit_interval(self.centroid)
        &&& in_unit_interval(self.flux)
        &&& in_unit_interval(self.rolloff)
        &&& is_finite(self.tv)
    }

    /// The set that `sanitized` makes of this one.
    pub open spec fn cleaned(self) -> Features {
        Features {
            rms: clamped_to_unit(self.rms),
            bass: clamped_to_unit(self.bass),
            mid: clamped_to_unit(self.mid),
            treble: clamped_to_unit(self.treble),
            zcr: clamped_to_unit(self.zcr),
            centroid: clamped_to_unit(self.centroid),
            flux: clamped_to_unit(self.flux),
            rolloff: clamped_to_unit(self.rolloff),
            tv: finite_or_zeroed(self.tv),
        }
    }

    /// The set in which every descriptor is positive zero.
    pub fn zero() -> (r: Features)
        ensures
            r == Features::zeroed(),
            r.well_formed(),
    {
        Features {
            rms: 0,
            bass: 0,
            mid: 0,
            treble: 0,
            zcr: 0,
            centroid: 0,
            flux: 0,
            rolloff: 0,
            tv: 0,
        }
    }

    /// Reads one descriptor.
    pub fn get(&self, feature: Feature) -> (r: u32)
        ensures
            r == self.value(feature),
    {
        match feature {
            Feature::Rms => self.rms,
            Feature::Bass => self.bass,
            Feature::Mid => self.mid,
            Feature::Treble => self.treble,
            Feature::Zcr => self.zcr,
            Feature::Centroid => self.centroid,
            Feature::Flux => self.flux,
            Feature::RollOff => self.rolloff,
            Feature::Tv => self.tv,
        }
    }

    /// Replaces one descriptor and leaves the other eight as they are.
    pub fn set(&mut self, feature: Feature, bits: u32)
        ensures
            *final(self) == old(self).replaced(feature, bits),
    {
        match feature {
            Feature::Rms => self.rms = bits,
            Feature::Bass => self.bass = bits,
            Feature::Mid => self.mid = bits,
            Feature::Treble => self.treble = bits,
            Feature::Zcr => self.zcr = bits,
            Feature::Centroid => self.centroid = bits,
            Feature::Flux => self.flux = bits,
            Feature::RollOff => self.rolloff = bits,
            Feature::Tv => self.tv = bits,
        }
    }

    /// Makes a set fit to be published: a descriptor that is no number
    /// becomes zero, and every descriptor but the total variation is brought
    /// into the interval from zero to one. The total variation has no upper
    /// bound; an infinite one becomes zero.
    ///
    /// A set that is well formed already comes back unchanged.
    pub fn sanitized(&self) -> (r: Features)
        ensures
            r == self.cleaned(),
            r.well_formed(),
            self.well_formed() ==> r == *self,
    {
        Features {
            rms: clamp_unit(self.rms),
            bass: clamp_unit(self.bass),
            mid: clamp_unit(self.mid),
            treble: clamp_unit(self.treble),
            zcr: clamp_unit(self.zcr),
            centroid: clamp_unit(self.centroid),
            flux: clamp_unit(self.flux),
            rolloff: clamp_unit(self.rolloff),
            tv: finite_or_zero(self.tv),
        }
    }
}

/// In a well-formed set every descriptor is a finite number, none is a
/// NaN, and every descriptor but the total variation lies between zero and
/// one.
pub proof fn well_formed_is_finite(features: Features, feature: Feature)
    requires
        features.well_formed(),
    ensures
        is_finite(features.value(feature)),
        !is_nan(features.value(feature)),
        feature != Feature::Tv ==> in_unit_interval(features.value(feature)),
{
}

/// The store of the latest feature set: one writer replaces it, any
/// reader takes a copy of it. Before the first write it holds zero in every
/// descriptor.
///
/// A write takes the store exclusively and a read takes it shared, so a
/// reader sees a set either wholly before or wholly after a write.
#[derive(Debug)]
pub struct AudioFeatures {
    latest: Features,
}

impl View for AudioFeatures {
    type V = Features;

    closed spec fn view(&self) -> Features {
        self.latest
    }
}

impl Default for AudioFeatures {
    /// The store before its first write.
    fn default() -> (r: AudioFeatures)
        ensures
            r@ == Features::zeroed(),
    {
        AudioFeatures { latest: Features::zero() }
    }
}

impl AudioFeatures {
    /// The set written last, or zero in every descriptor if none was.
    ///
    /// Reading leaves the store as it is: two reads with no write between
    /// them give the same set.
    pub fn read(&self) -> (r: Features)
        ensures
            r == self@,
    {
        self.latest
    }

    /// Replaces the stored set, read or not.
    pub fn write(&mut self, features: Features)
        ensures
            final(self)@ == features,
    {
        self.latest = features;
    }

    /// Reads one descriptor of the stored set.
    pub fn get(&self, feature: Feature) -> (r: u32)
        ensures
            r == self@.value(feature),
    {
        self.latest.get(feature)
    }

    /// Replaces one descriptor of the stored set.
    pub fn set(&mut self, feature: Feature, bits: u32)
        ensures
            final(self)@ == old(self)@.replaced(feature, bits),
    {
        self.latest.set(feature, bits);
    }
}

} // verus!
