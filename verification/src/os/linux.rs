//! The Linux `usbfs` side of the library.
pub mod constants;
pub mod enumerate;
pub mod usb_device;
pub mod usbfs;
pub mod usbfsurb;
