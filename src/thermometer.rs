//! A thermometer that holds the temperature it was created with.

use vstd::prelude::*;
use crate::home_device::HomeDevice;
use crate::text::{decimal, push_decimal};

verus! {

/// A thermometer: its name and its current temperature.
pub struct Thermometer {
    name: String,
    temperature: u16,
}

/// The state of a thermometer.
pub ghost struct ThermometerView {
    pub name: Seq<char>,
    pub temperature: u16,
}

impl View for Thermometer {
    type V = ThermometerView;

    closed spec fn view(&self) -> ThermometerView {
        ThermometerView { name: self.name@, temperature: self.temperature }
    }
}

/// The report line of a thermometer in state `t`.
pub open spec fn thermometer_line(t: ThermometerView) -> Seq<char> {
    "Thermometer "@ + t.name + ": current temperature "@ + decimal(t.temperature as nat)
}

impl Thermometer {
    pub fn new(name: &str, temperature: u16) -> (r: Thermometer)
        ensures
            r@ == (ThermometerView { name: name@, temperature }),
    {
        Thermometer { name: name.to_owned(), temperature }
    }

    pub(crate) fn name_ref(&self) -> (r: &String)
        ensures
            r@ == self@.name,
    {
        &self.name
    }

    fn current_temperature(&self) -> (r: u16)
        ensures
            r == self@.temperature,
    {
        self.temperature
    }
}

impl HomeDevice for Thermometer {
    open spec fn line(&self) -> Seq<char> {
        thermometer_line(self@)
    }

    fn report(&self) -> (r: String) {
        let mut s = String::new();
        s.append("Thermometer ");
        s.append(self.name.as_str());
        s.append(": current temperature ");
        push_decimal(&mut s, self.current_temperature() as u64);
        s
    }
}

} // verus!
