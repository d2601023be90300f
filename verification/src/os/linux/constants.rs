//! Numbers shared with the kernel and with devices.
use vstd::prelude::*;

verus! {

/// Capability bit: zero-length packets can be sent.
pub const USBFS_CAP_ZERO_PACKET: u8 = 0x01;

/// Capability bit: bulk continuation is supported.
pub const USBFS_CAP_BULK_CONTINUATION: u8 = 0x02;

/// Capability bit: no limit on the packet size.
pub const USBFS_CAP_NO_PACKET_SIZE_LIM: u8 = 0x04;

/// Capability bit: bulk scatter-gather is supported.
pub const USBFS_CAP_BULK_SCATTER_GATHER: u8 = 0x08;

/// Capability bit: URBs can be reaped after a disconnect.
pub const USBFS_CAP_REAP_AFTER_DISCONNECT: u8 = 0x10;

/// Capability bit: transfer buffers can be memory-mapped.
pub const USBFS_CAP_MMAP: u8 = 0x20;

/// Capability bit: privileges can be dropped.
pub const USBFS_CAP_DROP_PRIVILEGES: u8 = 0x40;

/// URB type tag of an isochronous transfer.
pub const USBFS_URB_TYPE_ISO: u8 = 0;

/// URB type tag of an interrupt transfer.
pub const USBFS_URB_TYPE_INTERRUPT: u8 = 1;

/// URB type tag of a control transfer.
pub const USBFS_URB_TYPE_CONTROL: u8 = 2;

/// URB type tag of a bulk transfer.
pub const USBFS_URB_TYPE_BULK: u8 = 3;

/// URB flag: a short read is an error.
pub const USBFS_URB_FLAGS_SHORT_NOT_OK: u32 = 0x01;

/// URB flag: schedule an isochronous transfer as soon as possible.
pub const USBFS_URB_FLAGS_ISO_ASAP: u32 = 0x02;

/// URB flag: this URB continues the bulk transfer before it.
pub const USBFS_URB_FLAGS_BULK_CONTINUATION: u32 = 0x04;

/// URB flag: end the transfer with a zero-length packet.
pub const USBFS_URB_FLAGS_ZERO_PACKET: u32 = 0x40;

/// URB flag: raise no interrupt on completion.
pub const USBFS_URB_FLAGS_NO_INTERRUPT: u32 = 0x80;

/// Request recipient: the device.
pub const RECIPIENT_DEVICE: u8 = 0x00;

/// Request recipient: an interface.
pub const RECIPIENT_INTERFACE: u8 = 0x01;

/// Request recipient: an endpoint.
pub const RECIPIENT_ENDPOINT: u8 = 0x02;

/// Request recipient: something else.
pub const RECIPIENT_OTHER: u8 = 0x03;

/// Request type: a standard request.
pub const REQUEST_TYPE_STANDARD: u8 = 0x00;

/// Request type: a class request.
pub const REQUEST_TYPE_CLASS: u8 = 0x20;

/// Group byte of every `usbfs` ioctl.
pub const USBFS_IOCTL_GROUP: u8 = 0x55;

/// Ioctl number: synchronous control transfer.
pub const USBFS_IOCTL_CONTROL: u8 = 0;

/// Ioctl number: synchronous bulk transfer.
pub const USBFS_IOCTL_BULK: u8 = 2;

/// Ioctl number: set the alternate setting of an interface.
pub const USBFS_IOCTL_SETINTERFACE: u8 = 4;

/// Ioctl number: ask which driver is bound to an interface.
pub const USBFS_IOCTL_GETDRIVER: u8 = 8;

/// Ioctl number: submit a URB.
pub const USBFS_IOCTL_SUBMITURB: u8 = 10;

/// Ioctl number: reap a completed URB without waiting.
pub const USBFS_IOCTL_REAPURBNDELAY: u8 = 13;

/// Ioctl number: claim an interface.
pub const USBFS_IOCTL_CLAIMINTERFACE: u8 = 15;

/// Ioctl number: release an interface.
pub const USBFS_IOCTL_RELEASEINTERFACE: u8 = 16;

/// Ioctl number: an ioctl addressed to the driver of an interface.
pub const USBFS_IOCTL_IOCTL: u8 = 18;

/// Ioctl number: reset the device.
pub const USBFS_IOCTL_RESET: u8 = 20;

/// Ioctl number: clear a halted endpoint.
pub const USBFS_IOCTL_CLEAR_HALT: u8 = 21;

/// Sub-operation of [`USBFS_IOCTL_IOCTL`]: disconnect the bound driver.
pub const USBFS_IOCTL_DISCONNECT: u8 = 22;

/// Ioctl number: read the capability bitmap.
pub const USBFS_IOCTL_GET_CAPABILITIES: u8 = 26;

} // verus!
