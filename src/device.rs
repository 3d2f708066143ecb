//! The closed set of device kinds.

use vstd::prelude::*;
use crate::home_device::HomeDevice;
use crate::smart_plug::{PlugView, SmartPlug};
use crate::thermometer::{Thermometer, ThermometerView};

verus! {

/// A device of one of the known kinds.
pub enum Device {
    SmartPlug(SmartPlug),
    Thermometer(Thermometer),
}

impl Device {
    /// The device's name, by which its room finds it.
    pub open spec fn name(&self) -> Seq<char> {
        match self {
            Device::SmartPlug(p) => p@.name,
            Device::Thermometer(t) => t@.name,
        }
    }

    /// The device's report line.
    pub open spec fn line(&self) -> Seq<char> {
        match self {
            Device::SmartPlug(p) => p.line(),
            Device::Thermometer(t) => t.line(),
        }
    }

    /// A smart plug that is off.
    pub fn create_plug(name: &str, capacity: u16) -> (r: Device)
        ensures
            r matches Device::SmartPlug(p) && p@ == (PlugView { name: name@, on: false, capacity }),
    {
        Device::SmartPlug(SmartPlug::new(name, capacity))
    }

    pub fn create_thermometer(name: &str, temperature: u16) -> (r: Device)
        ensures
            r matches Device::Thermometer(t) && t@ == (ThermometerView { name: name@, temperature }),
    {
        Device::Thermometer(Thermometer::new(name, temperature))
    }

    pub fn report(&self) -> (r: String)
        ensures
            r@ == self.line(),
    {
        match self {
            Device::SmartPlug(plug) => plug.report(),
            Device::Thermometer(t) => t.report(),
        }
    }

    pub fn get_name(&self) -> (r: &String)
        ensures
            r@ == self.name(),
    {
        match self {
            Device::SmartPlug(plug) => plug.name_ref(),
            Device::Thermometer(t) => t.name_ref(),
        }
    }
}

} // verus!
