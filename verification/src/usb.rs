//! The xHCI host-controller driver: TRBs, producer and consumer rings,
//! the command/transfer/event ring managers, device contexts, the USB
//! descriptor parser, the port-addressing state machine, the HID class
//! drivers, and the cooperative runtime that ties them together.

pub mod trb;
pub mod xhci;
pub mod ring;
pub mod runtime;
pub mod command_ring;
pub mod transfer_ring;
pub mod event_ring;
pub mod device;
pub mod init_device;
pub mod usbd;
pub mod key;
pub mod keyboard;
pub mod mouse;
pub mod util;
