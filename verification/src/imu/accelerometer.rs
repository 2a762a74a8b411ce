//! The accelerometer of the device.

use crate::imu::axes::remap;
use crate::imu::axes::AlignedSample;
use crate::imu::axes::RawSample;
use crate::imu::IMU;
use crate::spi_core::burst_frame;
use crate::spi_core::combine;
use crate::spi_core::SpiCore;
use crate::spi_core::TRIPLET_BYTES;
use vstd::prelude::*;

verus! {

/// First of the six registers that hold the acceleration sample.
pub const ACCEL_XOUT_H: u8 = 0x2D;

/// Counts per g at the configured full-scale range of plus or minus 2 g.
pub const ACCEL_SENSITIVITY: i32 = 16384;

/// Reader of acceleration samples. One exists only for a device whose
/// initialization is complete.
#[derive(Clone, Copy, Debug, PartialEq, Eq)]
pub struct Accelerometer {
    flagged: bool,
}

impl Accelerometer {
    /// A reader for the device, once its initialization is complete.
    pub fn new(imu: &IMU) -> (reader: Option<Self>)
        ensures
            reader is Some <==> imu@ is Ready,
            reader matches Some(r) ==> (r.is_flagged() <==> imu@->Ready_warning is Some),
    {
        if imu.is_initialized() {
            let flagged = imu.warning().is_some();
            Some(Accelerometer { flagged })
        } else {
            None
        }
    }

    /// Whether initialization completed with a warning.
    pub closed spec fn is_flagged(&self) -> bool {
        self.flagged
    }

    /// Whether initialization completed with a warning.
    pub fn flagged(&self) -> (flagged: bool)
        ensures
            flagged == self.is_flagged(),
    {
        self.flagged
    }

    /// Counts per g of the samples that `read` returns.
    pub fn sensitivity(&self) -> (counts: i32)
        ensures
            counts == ACCEL_SENSITIVITY,
    {
        ACCEL_SENSITIVITY
    }

    /// The frame of the transaction that fetches one sample.
    pub fn read_request(&self) -> (frame: [u8; 7])
        ensures
            frame@ == burst_frame(ACCEL_XOUT_H, TRIPLET_BYTES as nat),
    {
        SpiCore::new().burst_read_combine_request(ACCEL_XOUT_H)
    }

    /// The sample in a response, in the consumer frame: the byte pairs
    /// combined big-endian, then x and y swapped and z negated.
    pub fn read(&self, response: &[u8; 7]) -> (sample: AlignedSample)
        ensures
            sample@ == remap(
                (
                    combine(response@[1], response@[2]),
                    combine(response@[3], response@[4]),
                    combine(response@[5], response@[6]),
                ),
            ),
    {
        let values = SpiCore::new().burst_read_combine(response);
        RawSample::from_array(values).remap()
    }
}

} // verus!
