//! The gyroscope of the device.

use crate::imu::axes::remap;
use crate::imu::axes::AlignedSample;
use crate::imu::axes::RawSample;
use crate::imu::IMU;
use crate::spi_core::burst_frame;
use crate::spi_core::combine;
use crate::spi_core::SpiCore;
use crate::spi_core::TRIPLET_BYTES;
use vstd::prelude::*;

verus! {

/// First of the six registers that hold the angular-rate sample.
pub const GYRO_XOUT_H: u8 = 0x33;

/// Counts per degree per second at the configured full-scale range of plus or
/// minus 250 degrees per second.
pub const GYRO_SENSITIVITY: i32 = 131;

/// Reader of angular-rate samples. One exists only for a device whose
/// initialization is complete.
#[derive(Clone, Copy, Debug, PartialEq, Eq)]
pub struct Gyroscope {
    flagged: bool,
}

impl Gyroscope {
    /// A reader for the device, once its initialization is complete.
    pub fn new(imu: &IMU) -> (reader: Option<Self>)
        ensures
            reader is Some <==> imu@ is Ready,
            reader matches Some(r) ==> (r.is_flagged() <==> imu@->Ready_warning is Some),
    {
        if imu.is_initialized() {
            let flagged = imu.warning().is_some();
            Some(Gyroscope { flagged })
        } else {
            None
        }
    }

    /// Whether initialization completed with a warning.
    pub closed spec fn is_flagged(&self) -> bool {
        self.flagged
    }

    /// Whether initialization completed with a warning.
    pub fn flagged(&self) -> (flagged: bool)
        ensures
            flagged == self.is_flagged(),
    {
        self.flagged
    }

    /// Counts per degree per second of the samples that `read` returns.
    pub fn sensitivity(&self) -> (counts: i32)
        ensures
            counts == GYRO_SENSITIVITY,
    {
        GYRO_SENSITIVITY
    }

    /// The frame of the transaction that fetches one sample.
    pub fn read_request(&self) -> (frame: [u8; 7])
        ensures
            frame@ == burst_frame(GYRO_XOUT_H, TRIPLET_BYTES as nat),
    {
        SpiCore::new().burst_read_combine_request(GYRO_XOUT_H)
    }

    /// The sample in a response, in the consumer frame: the byte pairs
    /// combined big-endian, then x and y swapped and z negated.
    pub fn read(&self, response: &[u8; 7]) -> (sample: AlignedSample)
        ensures
            sample@ == remap(
                (
                    combine(response@[1], response@[2]),
                    combine(response@[3], response@[4]),
                    combine(response@[5], response@[6]),
                ),
            ),
    {
        let values = SpiCore::new().burst_read_combine(response);
        RawSample::from_array(values).remap()
    }
}

} // verus!
