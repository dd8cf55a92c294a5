//! Bluetooth devices as they are observed: addresses, snapshots, discovery.

pub mod address;
pub mod device;
pub mod discover;
pub mod time;

pub use address::Address;
pub use device::{AddressType, Device, DeviceProperty, DeviceView, Modalias, PropertyView};
pub use time::CaptureTime;
pub use discover::{discover, AdapterEvent, Command, Discovery, DiscoveryError, Signal};
