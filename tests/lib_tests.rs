use smart_home_lib::device::Device;
use smart_home_lib::home::Home;
use smart_home_lib::room::Room;
use smart_home_lib::smart_plug::SmartPlug;
use smart_home_lib::thermometer::Thermometer;

#[test]
fn lib_setup_home_with_rooms() {
    let mut home = Home::new("Country house");
    let hall = Room::new("Hall", 24);

    let mut bedroom = Room::new("Bed room", 12);
    let _ = bedroom.install(Device::Thermometer(Thermometer::new("t2", 12)));
    let _ = bedroom.install(Device::SmartPlug(SmartPlug::new("p2", 220)));

    let _ = home.add_room(bedroom);

    assert!(home.contains("Bed room"));
    assert!(!home.contains("Hall"));
    assert_eq!(home.rooms_count(), 1);

    let _ = home.add_room(hall);
    assert!(home.contains("Hall"));
    assert_eq!(home.rooms_count(), 2);
}

#[test]
fn lib_check_home_report() {
    let mut home = Home::new("Country house");
    let mut hall = Room::new("Hall", 24);

    let _ = hall.install(Device::Thermometer(Thermometer::new("t1", 12)));
    let _ = hall.install(Device::SmartPlug(SmartPlug::new("s1", 220)));

    let mut plug = SmartPlug::new("s2", 120);
    plug.turn_off();
    plug.turn_on();
    let _ = hall.install(Device::SmartPlug(plug));

    let mut bedroom = Room::new("Bed room", 12);
    let _ = bedroom.install(Device::Thermometer(Thermometer::new("t1", 12)));
    let _ = bedroom.install(Device::SmartPlug(SmartPlug::new("s1", 220)));

    let _ = home.add_room(hall);
    let _ = home.add_room(bedroom);

    let report = home.report();
    assert!(report.len() > 0);
}

#[test]
fn lib_find_room_in_the_house() {
    let mut home = Home::new("Country house");
    let bedroom = Room::new("Bed room", 12);
    let _ = home.add_room(bedroom);

    let search = home.find("Bed room");

    assert!(search.is_some());
    assert_eq!(search.unwrap().name(), "Bed room");

    home.remove("Bed room");
    let search = home.find("Bed room");
    assert!(search.is_none());
}

#[test]
fn lib_find_device_in_the_room() {
    let mut bedroom = Room::new("Bed room", 12);
    let _ = bedroom.install(Device::SmartPlug(SmartPlug::new("s1", 120)));
    let _ = bedroom.install(Device::SmartPlug(SmartPlug::new("s2", 120)));
    let _ = bedroom.install(Device::Thermometer(Thermometer::new("t1", 30)));
    let device = bedroom.find("t1");
    assert_eq!(bedroom.devices().len(), 3);
    assert!(device.is_some());
    assert_eq!(*device.unwrap().get_name(), "t1");
}
