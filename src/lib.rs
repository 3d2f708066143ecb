//! An in-memory registry of a home: uniquely named rooms, each holding
//! uniquely named devices, and the nested text report built from them.

pub mod app_error;
pub mod device;
pub mod home;
pub mod home_device;
pub mod names;
pub mod room;
pub mod smart_plug;
pub mod text;
pub mod thermometer;
