use vstd::prelude::*;

pub mod pci;
pub mod vga;
pub mod framebuffer;
pub mod ps2;
pub mod keyboard;
pub mod mouse;
pub mod touchpad;
pub mod bluetooth;
pub mod virtio;
pub mod mmio;
pub mod hda;
pub mod ac97;
pub mod bytes;
pub mod acpi;
pub mod ahci;
pub mod nvme;
pub mod usb_host;
pub mod usb_device;
pub mod usb_hub;
pub mod wifi;
pub mod ethernet;
pub mod gpu;

verus! {
}
