//! A switchable plug with a rated capacity.

use vstd::prelude::*;
use crate::home_device::HomeDevice;
use crate::text::{bool_text, decimal, push_bool, push_decimal};

verus! {

/// A smart plug: its name, whether it is on, and its rated capacity.
pub struct SmartPlug {
    name: String,
    status: bool,
    capacity: u16,
}

/// The state of a smart plug.
pub ghost struct PlugView {
    pub name: Seq<char>,
    pub on: bool,
    pub capacity: u16,
}

impl View for SmartPlug {
    type V = PlugView;

    closed spec fn view(&self) -> PlugView {
        PlugView { name: self.name@, on: self.status, capacity: self.capacity }
    }
}

/// The report line of a plug in state `p`.
pub open spec fn plug_line(p: PlugView) -> Seq<char> {
    "Smart plug "@ + p.name + ", status "@ + bool_text(p.on) + ", capacity "@ + decimal(
        p.capacity as nat,
    )
}

impl SmartPlug {
    /// A plug that is off.
    pub fn new(name: &str, capacity: u16) -> (r: SmartPlug)
        ensures
            r@ == (PlugView { name: name@, on: false, capacity }),
    {
        SmartPlug { name: name.to_owned(), status: false, capacity }
    }

    pub(crate) fn name_ref(&self) -> (r: &String)
        ensures
            r@ == self@.name,
    {
        &self.name
    }

    pub fn turn_on(&mut self)
        ensures
            final(self)@ == (PlugView { on: true, ..old(self)@ }),
    {
        self.status = true;
    }

    pub fn turn_off(&mut self)
        ensures
            final(self)@ == (PlugView { on: false, ..old(self)@ }),
    {
        self.status = false;
    }
}

impl HomeDevice for SmartPlug {
    open spec fn line(&self) -> Seq<char> {
        plug_line(self@)
    }

    fn report(&self) -> (r: String) {
        let mut s = String::new();
        s.append("Smart plug ");
        s.append(self.name.as_str());
        s.append(", status ");
        push_bool(&mut s, self.status);
        s.append(", capacity ");
        push_decimal(&mut s, self.capacity as u64);
        s
    }
}

} // verus!
