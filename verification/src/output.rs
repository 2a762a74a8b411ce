//! The shape of what goes in and what is published.
//!
//! The scalar type of a measurement is left open: the types here fix which
//! component goes where, not how a component is represented.

use vstd::prelude::*;

verus! {

/// Frame in which published messages are expressed.
pub const FRAME_ID: &'static str = "imu_link";

/// Number of entries of a three-by-three covariance matrix.
pub const COVARIANCE_ENTRIES: usize = 9;

/// A quantity with one component per axis.
#[derive(Clone, Copy, Debug, PartialEq)]
pub struct Vector3<T> {
    pub x: T,
    pub y: T,
    pub z: T,
}

/// An orientation.
#[derive(Clone, Copy, Debug, PartialEq)]
pub struct Quaternion<T> {
    pub w: T,
    pub x: T,
    pub y: T,
    pub z: T,
}

/// An orientation as three angles.
#[derive(Clone, Copy, Debug, PartialEq)]
pub struct EulerAngles<T> {
    pub roll: T,
    pub pitch: T,
    pub yaw: T,
}

/// Wall-clock time of a message, as whole seconds and the nanoseconds
/// beyond them.
#[derive(Clone, Copy, Debug, PartialEq, Eq)]
pub struct Stamp {
    pub sec: i32,
    pub nanosec: u32,
}

/// An inbound sample: what the accelerometer and the gyroscope measured.
#[derive(Clone, Copy, Debug, PartialEq)]
pub struct InertialSample<T> {
    pub linear_acceleration: Vector3<T>,
    pub angular_velocity: Vector3<T>,
}

/// The published message: the estimated orientation, the sample it was
/// estimated from, and one covariance matrix for each of the three.
#[derive(Clone, Copy, Debug, PartialEq)]
pub struct ImuMessage<T> {
    pub stamp: Stamp,
    pub orientation: Quaternion<T>,
    pub orientation_covariance: [T; 9],
    pub angular_velocity: Vector3<T>,
    pub angular_velocity_covariance: [T; 9],
    pub linear_acceleration: Vector3<T>,
    pub linear_acceleration_covariance: [T; 9],
}

/// The signed 32-bit number that the low 32 bits of `secs` stand for.
pub open spec fn wrapped_seconds(secs: u64) -> int {
    let low = secs as int % 0x1_0000_0000;
    if low >= 0x8000_0000 {
        low - 0x1_0000_0000
    } else {
        low
    }
}

/// A covariance matrix of which every entry is `fill`.
pub open spec fn filled_covariance<T>(fill: T) -> Seq<T> {
    Seq::new(COVARIANCE_ENTRIES as nat, |i: int| fill)
}

impl Stamp {
    /// The stamp of the start of the epoch.
    pub fn zero() -> (stamp: Self)
        ensures
            stamp == (Stamp { sec: 0, nanosec: 0 }),
    {
        Stamp { sec: 0, nanosec: 0 }
    }

    /// The stamp for a wall-clock time given as seconds since the epoch and
    /// nanoseconds beyond them. The seconds are cut to their low 32 bits.
    pub fn from_unix(secs: u64, nanos: u32) -> (stamp: Self)
        ensures
            stamp.sec == wrapped_seconds(secs),
            stamp.nanosec == nanos,
    {
        let sec: i32 = secs as i32;
        assert(sec as int == if (secs % 0x1_0000_0000) >= 0x8000_0000 {
            (secs % 0x1_0000_0000) as int - 0x1_0000_0000
        } else {
            (secs % 0x1_0000_0000) as int
        }) by (bit_vector)
            requires
                sec == secs as i32,
        ;
        Stamp { sec, nanosec: nanos }
    }
}

impl<T: Copy> Vector3<T> {
    /// The vector whose components are the entries of `values`, in x, y, z
    /// order.
    pub fn from_array(values: [T; 3]) -> (vector: Self)
        ensures
            vector == (Vector3 { x: values@[0], y: values@[1], z: values@[2] }),
    {
        Vector3 { x: values[0], y: values[1], z: values[2] }
    }

    /// The components in x, y, z order.
    pub fn to_array(&self) -> (values: [T; 3])
        ensures
            values@ == seq![self.x, self.y, self.z],
    {
        let values: [T; 3] = [self.x, self.y, self.z];
        assert(values@ =~= seq![self.x, self.y, self.z]);
        values
    }
}

impl<T: Copy> Quaternion<T> {
    /// The orientation held by an estimator state whose first four entries
    /// are the quaternion components w, x, y, z. A shorter state holds none.
    pub fn from_state(state: &[T]) -> (orientation: Option<Self>)
        ensures
            orientation is Some <==> state@.len() >= 4,
            orientation matches Some(q) ==> q == (Quaternion {
                w: state@[0],
                x: state@[1],
                y: state@[2],
                z: state@[3],
            }),
    {
        if state.len() >= 4 {
            Some(Quaternion { w: state[0], x: state[1], y: state[2], z: state[3] })
        } else {
            None
        }
    }
}

impl<T: Copy> EulerAngles<T> {
    /// The angles held by an estimator state whose first three entries are
    /// roll, pitch and yaw. A shorter state holds none.
    pub fn from_state(state: &[T]) -> (angles: Option<Self>)
        ensures
            angles is Some <==> state@.len() >= 3,
            angles matches Some(a) ==> a == (EulerAngles {
                roll: state@[0],
                pitch: state@[1],
                yaw: state@[2],
            }),
    {
        if state.len() >= 3 {
            Some(EulerAngles { roll: state[0], pitch: state[1], yaw: state[2] })
        } else {
            None
        }
    }
}

impl<T: Copy> ImuMessage<T> {
    /// The message that publishes `orientation` as estimated from `sample`:
    /// the sample is passed through unchanged and every covariance entry is
    /// `zero`.
    pub fn compose(
        stamp: Stamp,
        orientation: Quaternion<T>,
        sample: &InertialSample<T>,
        zero: T,
    ) -> (message: Self)
        ensures
            message.stamp == stamp,
            message.orientation == orientation,
            message.angular_velocity == sample.angular_velocity,
            message.linear_acceleration == sample.linear_acceleration,
            message.orientation_covariance@ == filled_covariance(zero),
            message.angular_velocity_covariance@ == filled_covariance(zero),
            message.linear_acceleration_covariance@ == filled_covariance(zero),
    {
        let covariance: [T; 9] = [zero, zero, zero, zero, zero, zero, zero, zero, zero];
        assert(covariance@ =~= filled_covariance(zero));
        ImuMessage {
            stamp,
            orientation,
            orientation_covariance: covariance,
            angular_velocity: sample.angular_velocity,
            angular_velocity_covariance: covariance,
            linear_acceleration: sample.linear_acceleration,
            linear_acceleration_covariance: covariance,
        }
    }
}

} // verus!
