//! A room: a name, an area, and the devices installed in it.

use vstd::prelude::*;
use crate::app_error::{AppError, Rejected};
use crate::device::Device;
use crate::names::{first_index, has_name, swap_removed, unique};
use crate::text::{decimal, push_decimal};

verus! {

/// A room and the devices it owns, no two with the same name.
pub struct Room {
    name: String,
    area: u8,
    devices: Vec<Device>,
}

/// The state of a room.
pub ghost struct RoomView {
    pub name: Seq<char>,
    pub area: u8,
    pub devices: Seq<Device>,
}

impl View for Room {
    type V = RoomView;

    closed spec fn view(&self) -> RoomView {
        RoomView { name: self.name@, area: self.area, devices: self.devices@ }
    }
}

/// The names of `devices`, in order.
pub open spec fn device_names(devices: Seq<Device>) -> Seq<Seq<char>> {
    devices.map_values(|d: Device| d.name())
}

/// The device named `name`, if any (the first one).
pub open spec fn device_named(devices: Seq<Device>, name: Seq<char>) -> Option<Device> {
    match first_index(device_names(devices), name) {
        Some(i) => Some(devices[i]),
        None => None,
    }
}

/// Whether installing `d` among `devices` is accepted: its name is free.
pub open spec fn install_accepted(devices: Seq<Device>, d: Device) -> bool {
    !has_name(device_names(devices), d.name())
}

/// The devices after installing `d`: appended when accepted, else unchanged.
pub open spec fn devices_after_install(devices: Seq<Device>, d: Device) -> Seq<Device> {
    if install_accepted(devices, d) {
        devices.push(d)
    } else {
        devices
    }
}

/// The devices after uninstalling the one named `name`: the last device
/// takes its place; unchanged when no device has that name.
pub open spec fn devices_after_uninstall(devices: Seq<Device>, name: Seq<char>) -> Seq<Device> {
    match first_index(device_names(devices), name) {
        Some(i) => swap_removed(devices, i),
        None => devices,
    }
}

/// The message of a refused install of a device named `name`.
pub open spec fn device_taken_message(name: Seq<char>) -> Seq<char> {
    "The device with name "@ + name + " already installed"@
}

/// The first line of a room's block in a home report.
pub open spec fn room_header(r: RoomView) -> Seq<char> {
    r.name + " report, room area "@ + decimal(r.area as nat)
}

/// One report line per device, in order.
pub open spec fn device_lines(devices: Seq<Device>) -> Seq<Seq<char>> {
    devices.map_values(|d: Device| d.line())
}

/// The views of a sequence of strings.
pub open spec fn string_views(v: Seq<String>) -> Seq<Seq<char>> {
    v.map_values(|s: String| s@)
}

impl Room {
    /// The room's invariant: a positive area and no two devices with one name.
    pub open spec fn wf(&self) -> bool {
        self@.area > 0 && unique(device_names(self@.devices))
    }

    /// An empty room.
    pub fn new(name: &str, area: u8) -> (r: Room)
        requires
            area > 0,
        ensures
            r@ == (RoomView { name: name@, area, devices: Seq::empty() }),
            r.wf(),
    {
        let r = Room { name: name.to_owned(), area, devices: Vec::new() };
        assert(device_names(r@.devices) =~= Seq::empty());
        r
    }

    pub fn name(&self) -> (r: &str)
        ensures
            r@ == self@.name,
    {
        self.name.as_str()
    }

    pub fn area(&self) -> (r: u8)
        ensures
            r == self@.area,
    {
        self.area
    }

    /// The installed devices, in order.
    pub fn devices(&self) -> (r: &Vec<Device>)
        ensures
            r@ == self@.devices,
    {
        &self.devices
    }

    fn position(&self, name: &String) -> (r: Option<usize>)
        ensures
            match r {
                Some(i) => first_index(device_names(self@.devices), name@) == Some(i as int),
                None => first_index(device_names(self@.devices), name@) is None,
            },
            r matches Some(i) ==> i < self@.devices.len(),
    {
        let ghost names = device_names(self@.devices);
        let mut i: usize = 0;
        while i < self.devices.len()
            invariant
                i <= self.devices@.len(),
                names == device_names(self@.devices),
                first_index(names, name@) == crate::names::index_from(names, name@, i as int),
            decreases self.devices@.len() - i,
        {
            assert(names[i as int] == self.devices@[i as int].name());
            if *self.devices[i].get_name() == *name {
                return Some(i);
            }
            i = i + 1;
        }
        None
    }

    /// One report line per device, in order; empty when there are none.
    pub fn report(&self) -> (r: Vec<String>)
        ensures
            string_views(r@) == device_lines(self@.devices),
    {
        let mut report: Vec<String> = Vec::with_capacity(self.devices.len());
        let mut i: usize = 0;
        while i < self.devices.len()
            invariant
                i <= self.devices@.len(),
                string_views(report@) =~= device_lines(self@.devices.subrange(0, i as int)),
            decreases self.devices@.len() - i,
        {
            let line = self.devices[i].report();
            let ghost before = report@;
            report.push(line);
            assert(string_views(report@) =~= string_views(before).push(line@));
            assert(self.devices@.subrange(0, i + 1) =~= self.devices@.subrange(0, i as int).push(
                self.devices@[i as int],
            ));
            i = i + 1;
        }
        assert(self.devices@.subrange(0, i as int) =~= self.devices@);
        report
    }

    /// The device named `name`, if any.
    pub fn find(&self, name: &str) -> (r: Option<&Device>)
        ensures
            match r {
                Some(d) => device_named(self@.devices, name@) == Some(*d),
                None => device_named(self@.devices, name@) is None,
            },
    {
        let key = name.to_owned();
        match self.position(&key) {
            Some(i) => Some(&self.devices[i]),
            None => None,
        }
    }

    /// Installs `device` at the end when no installed device has its name;
    /// otherwise hands it back with an error and leaves the room unchanged.
    pub fn install(&mut self, device: Device) -> (r: Result<(), Rejected<Device>>)
        ensures
            final(self)@ == (RoomView {
                devices: devices_after_install(old(self)@.devices, device),
                ..old(self)@
            }),
            r is Ok == install_accepted(old(self)@.devices, device),
            r matches Err(e) ==> e.item == device && e.error@ == device_taken_message(device.name()),
            old(self).wf() ==> final(self).wf(),
    {
        match self.position(device.get_name()) {
            Some(_) => {
                let mut message = String::new();
                message.append("The device with name ");
                message.append(device.get_name().as_str());
                message.append(" already installed");
                let error = AppError::new(message.as_str());
                Err(Rejected { error, item: device })
            },
            None => {
                proof {
                    if old(self).wf() {
                        crate::names::lemma_unique_push(device_names(self@.devices), device.name());
                    }
                }
                self.devices.push(device);
                assert(device_names(self@.devices) =~= device_names(old(self)@.devices).push(
                    device.name(),
                ));
                Ok(())
            },
        }
    }

    /// Removes and returns the device named `name`; the last device takes its
    /// place. Nothing changes when no device has that name.
    pub fn uninstall(&mut self, device_name: &str) -> (r: Option<Device>)
        ensures
            final(self)@ == (RoomView {
                devices: devices_after_uninstall(old(self)@.devices, device_name@),
                ..old(self)@
            }),
            r == device_named(old(self)@.devices, device_name@),
            old(self).wf() ==> final(self).wf(),
    {
        let key = device_name.to_owned();
        match self.position(&key) {
            Some(i) => {
                let d = self.devices.swap_remove(i);
                proof {
                    let names = device_names(old(self)@.devices);
                    assert(device_names(self@.devices) =~= swap_removed(names, i as int));
                    if old(self).wf() {
                        crate::names::lemma_unique_swap_removed(names, i as int);
                    }
                }
                Some(d)
            },
            None => None,
        }
    }
}

/// Installing two devices with one name keeps only the first: the second
/// install is refused and leaves the devices as they were, so a room that
/// had no devices ends with exactly one.
pub proof fn lemma_same_name_device_installed_once(room: Room, d1: Device, d2: Device)
    requires
        d1.name() == d2.name(),
    ensures
        !install_accepted(devices_after_install(room@.devices, d1), d2),
        devices_after_install(devices_after_install(room@.devices, d1), d2)
            == devices_after_install(room@.devices, d1),
        room@.devices.len() == 0 ==> devices_after_install(
            devices_after_install(room@.devices, d1),
            d2,
        ).len() == 1,
{
    let devices = room@.devices;
    if install_accepted(devices, d1) {
        let names = device_names(devices.push(d1));
        assert(names =~= device_names(devices).push(d1.name()));
        crate::names::lemma_first_index(names, d1.name());
        assert(names[devices.len() as int] == d1.name());
    }
}

/// Installing a device and then uninstalling its name hands back a device of
/// that name and leaves no device of that name in the room.
pub proof fn lemma_install_then_uninstall(room: Room, d: Device)
    requires
        room.wf(),
    ensures
        device_named(devices_after_install(room@.devices, d), d.name()) matches Some(x) && x.name()
            == d.name(),
        device_named(
            devices_after_uninstall(devices_after_install(room@.devices, d), d.name()),
            d.name(),
        ) is None,
{
    let devices = room@.devices;
    let after = devices_after_install(devices, d);
    let names = device_names(after);
    if install_accepted(devices, d) {
        assert(names =~= device_names(devices).push(d.name()));
        crate::names::lemma_unique_push(device_names(devices), d.name());
    }
    crate::names::lemma_first_index(names, d.name());
    let i = first_index(names, d.name())->0;
    assert(names[i] == after[i].name());
    crate::names::lemma_unique_swap_removed(names, i);
    assert(device_names(swap_removed(after, i)) =~= swap_removed(names, i));
}

/// Uninstalling a name that no device has returns nothing and changes nothing.
pub proof fn lemma_uninstall_missing_device(room: Room, name: Seq<char>)
    requires
        !has_name(device_names(room@.devices), name),
    ensures
        device_named(room@.devices, name) is None,
        devices_after_uninstall(room@.devices, name) == room@.devices,
{
}

} // verus!
