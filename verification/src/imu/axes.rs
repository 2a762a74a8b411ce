//! Axis conventions of the sensor and of its consumers.
//!
//! The sensor reports in its own mounting frame. Consumers expect a
//! right-handed frame that differs from it by a fixed transform: x and y are
//! swapped and z is negated. The transform is applied exactly once, when a
//! raw sample becomes an aligned one; the two sample types keep it from being
//! applied again downstream.

use vstd::prelude::*;

verus! {

/// The fixed transform from the sensor frame to the consumer frame.
pub open spec fn remap(v: (int, int, int)) -> (int, int, int) {
    (v.1, v.0, -v.2)
}

/// Three signed 16-bit counts in the sensor frame, as a burst read returns
/// them. They have no physical meaning until scaled.
#[derive(Clone, Copy, Debug, PartialEq, Eq)]
pub struct RawSample {
    pub x: i16,
    pub y: i16,
    pub z: i16,
}

/// Three counts in the consumer frame. Dividing a component by the sensor's
/// sensitivity gives the physical quantity.
#[derive(Clone, Copy, Debug, PartialEq, Eq)]
pub struct AlignedSample {
    pub x: i32,
    pub y: i32,
    pub z: i32,
}

impl View for RawSample {
    type V = (int, int, int);

    open spec fn view(&self) -> (int, int, int) {
        (self.x as int, self.y as int, self.z as int)
    }
}

impl View for AlignedSample {
    type V = (int, int, int);

    open spec fn view(&self) -> (int, int, int) {
        (self.x as int, self.y as int, self.z as int)
    }
}

impl RawSample {
    /// The sample whose components are the three values of a burst read, in
    /// x, y, z order.
    pub fn from_array(values: [i16; 3]) -> (sample: Self)
        ensures
            sample@ == (values@[0] as int, values@[1] as int, values@[2] as int),
    {
        RawSample { x: values[0], y: values[1], z: values[2] }
    }

    /// The same measurement in the consumer frame: x and y swapped, z negated.
    pub fn remap(self) -> (aligned: AlignedSample)
        ensures
            aligned@ == remap(self@),
            aligned.x == self.y,
            aligned.y == self.x,
            aligned.z == -self.z,
    {
        let x: i32 = self.y as i32;
        let y: i32 = self.x as i32;
        let z: i32 = -(self.z as i32);
        AlignedSample { x, y, z }
    }
}

/// Applying the transform a second time undoes it: the result is the sensor
/// frame again, not the consumer frame.
pub proof fn lemma_remap_twice_restores(v: (int, int, int))
    ensures
        remap(remap(v)) == v,
{
}

/// The transform leaves a sample unchanged only if x equals y and z is zero.
/// On every other sample one application and two applications disagree, so
/// an accidental second application is observable.
pub proof fn lemma_remap_fixed_points(v: (int, int, int))
    ensures
        remap(v) == v <==> (v.0 == v.1 && v.2 == 0),
        remap(remap(v)) == remap(v) <==> (v.0 == v.1 && v.2 == 0),
{
}

} // verus!
