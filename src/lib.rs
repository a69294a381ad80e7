//! A USB xHCI host-controller driver for a hobby kernel: the Command, Transfer and Event
//! rings, the per-device bus, device enumeration, boot-protocol HID class drivers and the
//! per-port bring-up state machine, with a few kernel helpers (geometry, page-frame bitmap,
//! a fixed-capacity text buffer).

pub mod array_writer;
pub mod arraymap;
pub mod bringup;
pub mod bus;
pub mod canvas;
pub mod class;
pub mod context;
pub mod controller;
pub mod descriptor;
pub mod device;
pub mod endpoint;
pub mod geometry;
pub mod pgmgr;
pub mod portsc;
pub mod ring;
pub mod setup;
pub mod trb;
