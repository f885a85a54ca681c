//! Host-side driver logic for a BlueNRG Bluetooth Low-Energy controller:
//! the packet codec, the bus handshake decisions and the bridge between the
//! transport context and the application.

pub mod driver;
pub mod hci;
pub mod interface;
pub mod packet;
pub mod queue;
