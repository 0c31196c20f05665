//! The live-adjustable amplitude scale and the rescale transform.
//!
//! The scale factor is a bounded rational in [0, 1], held as a numerator
//! and a denominator. Rescaling a channel level `v` yields
//! `floor(v * num / den)`, the truncating linear map the relay applies to
//! every byte of a universe payload.

use vstd::arithmetic::div_mod::{lemma_div_is_ordered, lemma_div_multiples_vanish};
use vstd::arithmetic::mul::lemma_mul_inequality;
use vstd::prelude::*;

verus! {

/// The largest data value a control-surface event carries.
pub const MIDI_VALUE_MAX: u16 = 127;

/// A scale factor in [0, 1], held exactly as the rational `num / den`.
#[derive(Clone, Copy, Debug, PartialEq, Eq, Structural)]
pub struct ScaleFactor {
    /// The numerator; at most `den`.
    pub num: u16,
    /// The denominator; never zero.
    pub den: u16,
}

impl ScaleFactor {
    /// A scale factor is well formed when it lies in [0, 1].
    pub open spec fn wf(self) -> bool {
        0 < self.den && self.num <= self.den
    }

    /// The scale `num / den`, checked to lie in [0, 1].
    pub fn new(num: u16, den: u16) -> (r: ScaleFactor)
        requires
            0 < den,
            num <= den,
        ensures
            r == (ScaleFactor { num, den }),
            r.wf(),
    {
        ScaleFactor { num, den }
    }

    /// The identity scale, 1.
    pub fn one() -> (r: ScaleFactor)
        ensures
            r.wf(),
            r.num == r.den,
    {
        ScaleFactor { num: 1, den: 1 }
    }
}

/// One rescaled channel level: `floor(v * num / den)`.
pub open spec fn scaled_byte(scale: ScaleFactor, v: u8) -> int {
    (v as int) * (scale.num as int) / (scale.den as int)
}

/// The whole payload rescaled pointwise.
pub open spec fn rescale_result(scale: ScaleFactor, data: Seq<u8>) -> Seq<u8> {
    Seq::new(data.len(), |i: int| scaled_byte(scale, data[i]) as u8)
}

/// A rescaled level never exceeds the level it came from, so it still
/// fits in a byte.
pub proof fn lemma_scaled_byte_le(scale: ScaleFactor, v: u8)
    requires
        scale.wf(),
    ensures
        0 <= scaled_byte(scale, v) <= v,
{
    lemma_mul_inequality(scale.num as int, scale.den as int, v as int);
    lemma_div_is_ordered((v as int) * (scale.num as int), (v as int) * (scale.den as int), scale.den as int);
    lemma_div_multiples_vanish(v as int, scale.den as int);
}

/// Scaling by 1 (`num == den`) is the identity on every byte value.
pub proof fn lemma_rescale_identity(scale: ScaleFactor, v: u8)
    requires
        scale.wf(),
        scale.num == scale.den,
    ensures
        scaled_byte(scale, v) == v,
{
    lemma_div_multiples_vanish(v as int, scale.den as int);
}

/// Scaling by 0 (`num == 0`) yields 0 on every byte value.
pub proof fn lemma_rescale_zero(scale: ScaleFactor, v: u8)
    requires
        scale.wf(),
        scale.num == 0,
    ensures
        scaled_byte(scale, v) == 0,
{
}

/// Replace every channel level in `data` with its rescaled value,
/// truncating to an integer.
pub fn rescale_universe(scale: ScaleFactor, data: &mut Vec<u8>)
    requires
        scale.wf(),
    ensures
        final(data)@ == rescale_result(scale, old(data)@),
{
    let ghost orig = data@;
    let mut i: usize = 0;
    while i < data.len()
        invariant
            scale.wf(),
            i <= data@.len(),
            data@.len() == orig.len(),
            forall|j: int| 0 <= j < i ==> data@[j] == scaled_byte(scale, orig[j]) as u8,
            forall|j: int| i <= j < orig.len() ==> data@[j] == orig[j],
        decreases data@.len() - i,
    {
        let v = data[i];
        proof {
            lemma_scaled_byte_le(scale, v);
            assert((v as int) * (scale.num as int) <= 255 * 65535) by (nonlinear_arith)
                requires
                    v <= 255,
                    scale.num <= 65535,
            ;
        }
        let scaled = ((v as u32) * (scale.num as u32) / (scale.den as u32)) as u8;
        data[i] = scaled;
        i += 1;
    }
    assert(data@ =~= rescale_result(scale, orig));
}

/// The scale a control-surface data byte selects: `val / 127`, with the
/// raw value clamped to the 7-bit range first.
pub fn unipolar_from_midi(val: u8) -> (r: ScaleFactor)
    ensures
        r.wf(),
        r.den == MIDI_VALUE_MAX,
        r.num == if val as u16 > MIDI_VALUE_MAX { MIDI_VALUE_MAX } else { val as u16 },
{
    let raw: u16 = val as u16;
    let num: u16 = if raw > MIDI_VALUE_MAX { MIDI_VALUE_MAX } else { raw };
    ScaleFactor { num, den: MIDI_VALUE_MAX }
}

} // verus!
