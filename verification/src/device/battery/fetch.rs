//! What a battery is made of, taken from a reading.

use super::{Reading, State, Status};
use crate::error::BatteryDevice;
use crate::text::{trim, trimmed};
use vstd::prelude::*;
use vstd::string::*;

verus! {

/// The state that stands for what the power supply reports: a full battery
/// counts as charging, an empty one as discharging.
pub open spec fn state_of(status: Status) -> State {
    match status {
        Status::Charging | Status::Full => State::Charging,
        Status::Discharging | Status::Empty => State::Discharging,
        Status::Unknown => State::Unknown,
    }
}

/// The charge of the battery in percent.
pub fn percentage(device: &Reading) -> (percentage: u8)
    ensures
        percentage == device.charge,
{
    device.charge
}

/// The state of the battery.
pub fn state(device: &Reading) -> (state: State)
    ensures
        state == state_of(device.status),
{
    match device.status {
        Status::Charging | Status::Full => State::Charging,
        Status::Discharging | Status::Empty => State::Discharging,
        Status::Unknown => State::Unknown,
    }
}

/// The model of the battery, which the reading has to tell.
pub fn model(device: &Reading) -> (r: Result<String, BatteryDevice>)
    ensures
        match device.model {
            Some(model) => r matches Ok(text) && text@ == model@,
            None => r matches Err(e) && e == BatteryDevice::Model,
        },
{
    match &device.model {
        Some(model) => Ok(model.clone()),
        None => Err(BatteryDevice::Model),
    }
}

/// The serial number of the battery, without the white space around it;
/// the reading has to tell it.
pub fn serial_number(device: &Reading) -> (r: Result<String, BatteryDevice>)
    ensures
        match device.serial_number {
            Some(serial_number) => r matches Ok(text) && text@ == trimmed(serial_number@),
            None => r matches Err(e) && e == BatteryDevice::SerialNumber,
        },
{
    match &device.serial_number {
        Some(serial_number) => Ok(String::from_str(trim(serial_number.as_str()))),
        None => Err(BatteryDevice::SerialNumber),
    }
}

} // verus!
