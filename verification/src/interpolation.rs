//! This module contains anything related to interpolation.

use vstd::prelude::*;
use vstd::std_specs::convert::FromSpecImpl;

verus! {

/// The `Interpolation` Type.
/// This represents the various forms of interpolation that can be performed.
///
/// Each curve maps the progress `t` between two keys to a weight. A curve is
/// stored and sent as a single byte, its tag, given by [`Interpolation::tag`].
#[derive(Debug, Copy, Clone, PartialEq, Eq, Structural)]
pub enum Interpolation {
    /// `0`
    Step,
    /// `t`
    Linear,
    /// `t * t * (3 - 2 * t)`
    Smooth,
    /// `t * t`
    Ramp,
}

impl Interpolation {
    /// The tag of a curve: the byte that stands for it wherever a curve is
    /// stored or sent. Tags are handed out in declaration order, from `0` up.
    pub open spec fn tag(self) -> u8 {
        match self {
            Interpolation::Step => 0,
            Interpolation::Linear => 1,
            Interpolation::Smooth => 2,
            Interpolation::Ramp => 3,
        }
    }

    /// The curve that a byte stands for. A byte that is the tag of no curve
    /// stands for `Step`, the curve that does nothing.
    pub open spec fn decode(raw: u8) -> Interpolation {
        match raw {
            0 => Interpolation::Step,
            1 => Interpolation::Linear,
            2 => Interpolation::Smooth,
            3 => Interpolation::Ramp,
            _ => Interpolation::Step,
        }
    }

    /// Returns the tag of this curve.
    pub fn to_raw(self) -> (raw: u8)
        ensures
            raw == self.tag(),
            raw <= 3,
    {
        match self {
            Interpolation::Step => 0,
            Interpolation::Linear => 1,
            Interpolation::Smooth => 2,
            Interpolation::Ramp => 3,
        }
    }

    /// Reads a curve from a byte. Every byte is accepted: the tag of a curve
    /// gives that curve back, and any other byte gives `Step`.
    pub fn from_raw(raw: u8) -> (curve: Interpolation)
        ensures
            curve == Interpolation::decode(raw),
            raw <= 3 ==> curve.tag() == raw,
            raw > 3 ==> curve == Interpolation::Step,
    {
        match raw {
            0 => Interpolation::Step,
            1 => Interpolation::Linear,
            2 => Interpolation::Smooth,
            3 => Interpolation::Ramp,
            _ => Interpolation::Step,
        }
    }
}

impl From<u8> for Interpolation {
    /// Reads a curve from a byte, as [`Interpolation::from_raw`] does.
    fn from(raw: u8) -> (curve: Interpolation)
        ensures
            curve == Interpolation::decode(raw),
            raw <= 3 ==> curve.tag() == raw,
            raw > 3 ==> curve == Interpolation::Step,
    {
        Interpolation::from_raw(raw)
    }
}

impl FromSpecImpl<u8> for Interpolation {
    open spec fn obeys_from_spec() -> bool {
        true
    }

    open spec fn from_spec(raw: u8) -> Interpolation {
        Interpolation::decode(raw)
    }
}

/// Decoding undoes encoding: the tag of a curve is one of `0` to `3`, and it
/// stands for that curve.
pub proof fn lemma_decode_tag(curve: Interpolation)
    ensures
        curve.tag() <= 3,
        Interpolation::decode(curve.tag()) == curve,
{
}

/// Encoding undoes decoding on the tags and on nothing else: the curve that
/// a byte stands for has that byte as its tag exactly when the byte is one of
/// `0` to `3`. Any other byte stands for `Step`.
pub proof fn lemma_tag_decode(raw: u8)
    ensures
        Interpolation::decode(raw).tag() == raw <==> raw <= 3,
        raw > 3 ==> Interpolation::decode(raw) == Interpolation::Step,
{
}

/// No two curves share a tag.
pub proof fn lemma_tag_injective(a: Interpolation, b: Interpolation)
    requires
        a.tag() == b.tag(),
    ensures
        a == b,
{
}

} // verus!
