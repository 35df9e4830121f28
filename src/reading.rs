//! The reading that a device reports: two labels and six measurements.
//!
//! Decimal measurements are held as the bit pattern of their IEEE-754
//! binary64 value, so that a value passes through the library unchanged.
use vstd::prelude::*;

verus! {

/// The last-known state of one device.
pub struct Reading {
    pub device_id: String,
    pub device_location: String,
    /// Temperature in degrees Celsius (binary64 bits).
    pub temperature: u64,
    /// Relative humidity in percent (binary64 bits).
    pub humidity: u64,
    /// Heat index in degrees Celsius (binary64 bits).
    pub heat_index: u64,
    /// Flow rate in litres per hour (binary64 bits).
    pub flow_rate: u64,
    /// Distance in centimetres (binary64 bits).
    pub distance: u64,
    /// Water-level status, expected to be 0 (breached) or 1.
    pub water_level: i32,
}

pub ghost struct ReadingView {
    pub device_id: Seq<char>,
    pub device_location: Seq<char>,
    pub temperature: u64,
    pub humidity: u64,
    pub heat_index: u64,
    pub flow_rate: u64,
    pub distance: u64,
    pub water_level: i32,
}

impl View for Reading {
    type V = ReadingView;

    open spec fn view(&self) -> ReadingView {
        ReadingView {
            device_id: self.device_id@,
            device_location: self.device_location@,
            temperature: self.temperature,
            humidity: self.humidity,
            heat_index: self.heat_index,
            flow_rate: self.flow_rate,
            distance: self.distance,
            water_level: self.water_level,
        }
    }
}

/// The reading held before any device has reported: device `0x00` at
/// `Pune-India`, every measurement zero (the bits of `0.0` are all zero).
pub open spec fn default_reading() -> ReadingView {
    ReadingView {
        device_id: "0x00"@,
        device_location: "Pune-India"@,
        temperature: 0,
        humidity: 0,
        heat_index: 0,
        flow_rate: 0,
        distance: 0,
        water_level: 0,
    }
}

impl Reading {
    pub fn initial() -> (r: Reading)
        ensures
            r@ == default_reading(),
    {
        proof {
            reveal_strlit("0x00");
            reveal_strlit("Pune-India");
        }
        Reading {
            device_id: "0x00".to_owned(),
            device_location: "Pune-India".to_owned(),
            temperature: 0,
            humidity: 0,
            heat_index: 0,
            flow_rate: 0,
            distance: 0,
            water_level: 0,
        }
    }

    /// A copy of this reading that owns its own label strings.
    pub fn duplicate(&self) -> (r: Reading)
        ensures
            r@ == self@,
    {
        Reading {
            device_id: self.device_id.clone(),
            device_location: self.device_location.clone(),
            temperature: self.temperature,
            humidity: self.humidity,
            heat_index: self.heat_index,
            flow_rate: self.flow_rate,
            distance: self.distance,
            water_level: self.water_level,
        }
    }
}

} // verus!
