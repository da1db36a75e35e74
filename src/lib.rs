//! Motor-intensity command delivery to a Bluetooth Low-Energy accessory.
//!
//! Two transports are modelled: a GATT link, driven by a connection state
//! machine, and a connectionless broadcast, whose advertising payload is
//! produced by a bit-exact radio codec.

pub mod codec;
pub mod frame;
pub mod channel;
pub mod gatt;
pub mod gatt_worker;
pub mod broadcast;
pub mod profile;
pub mod remote;
pub mod settings;
