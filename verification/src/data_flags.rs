//! The 16-bit data-flags field: a named bit for each quantity the probe can
//! report. Every one of the sixteen bits is defined, so any word is a valid
//! flag set.

use vstd::prelude::*;

verus! {

/// A set of data flags, one bit per reportable quantity.
#[derive(Clone, Copy, PartialEq, Eq, Structural, Debug)]
pub struct DataFlags {
    pub bits: u16,
}

/// The empty flag set.
pub fn none() -> (f: DataFlags)
    ensures
        f.bits == 0,
{
    DataFlags { bits: 0 }
}

pub fn serial_number() -> (f: DataFlags)
    ensures
        f.bits == 1,
{
    DataFlags { bits: 1 }
}

pub fn probe_names() -> (f: DataFlags)
    ensures
        f.bits == 2,
{
    DataFlags { bits: 2 }
}

pub fn sensor_1_temperature() -> (f: DataFlags)
    ensures
        f.bits == 4,
{
    DataFlags { bits: 4 }
}

pub fn sensor_1_high_limit() -> (f: DataFlags)
    ensures
        f.bits == 8,
{
    DataFlags { bits: 8 }
}

pub fn sensor_1_low_limit() -> (f: DataFlags)
    ensures
        f.bits == 16,
{
    DataFlags { bits: 16 }
}

pub fn sensor_1_trim() -> (f: DataFlags)
    ensures
        f.bits == 32,
{
    DataFlags { bits: 32 }
}

pub fn sensor_2_temperature() -> (f: DataFlags)
    ensures
        f.bits == 64,
{
    DataFlags { bits: 64 }
}

pub fn sensor_2_high_limit() -> (f: DataFlags)
    ensures
        f.bits == 128,
{
    DataFlags { bits: 128 }
}

pub fn sensor_2_low_limit() -> (f: DataFlags)
    ensures
        f.bits == 256,
{
    DataFlags { bits: 256 }
}

pub fn sensor_2_trim() -> (f: DataFlags)
    ensures
        f.bits == 512,
{
    DataFlags { bits: 512 }
}

pub fn battery_condition() -> (f: DataFlags)
    ensures
        f.bits == 1024,
{
    DataFlags { bits: 1024 }
}

pub fn cal_value_1() -> (f: DataFlags)
    ensures
        f.bits == 2048,
{
    DataFlags { bits: 2048 }
}

pub fn cal_value_2() -> (f: DataFlags)
    ensures
        f.bits == 4096,
{
    DataFlags { bits: 4096 }
}

pub fn cal_value_3() -> (f: DataFlags)
    ensures
        f.bits == 8192,
{
    DataFlags { bits: 8192 }
}

pub fn firmware_version() -> (f: DataFlags)
    ensures
        f.bits == 16384,
{
    DataFlags { bits: 16384 }
}

pub fn types() -> (f: DataFlags)
    ensures
        f.bits == 32768,
{
    DataFlags { bits: 32768 }
}

/// Serial number, probe names, both temperatures and the battery condition.
pub fn default_flags() -> (f: DataFlags)
    ensures
        f.bits == 1095,
{
    DataFlags { bits: 1095 }
}

/// The two temperature readings alone, as the periodic poll requests them.
pub fn temps() -> (f: DataFlags)
    ensures
        f.bits == 68,
{
    DataFlags { bits: 68 }
}

impl DataFlags {
    /// The raw flag word.
    pub fn raw_bits(&self) -> (bits: u16)
        ensures
            bits == self.bits,
    {
        self.bits
    }

    /// Every 16-bit word names only defined flags, so this always accepts.
    pub fn from_bits(bits: u16) -> (f: Option<DataFlags>)
        ensures
            f == Some(DataFlags { bits }),
    {
        Some(DataFlags { bits })
    }

    /// The union of two flag sets.
    pub fn union(self, other: DataFlags) -> (f: DataFlags)
        ensures
            f.bits == self.bits | other.bits,
    {
        DataFlags { bits: self.bits | other.bits }
    }
}

} // verus!
