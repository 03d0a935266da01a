# Verified device drivers

Driver logic for a small x86 kernel: PS/2 keyboard, mouse and touchpad,
VGA text mode, linear framebuffers and display adapters, PCI and ACPI,
AHCI, NVMe and virtio storage, HD Audio and AC'97, Wi-Fi, Ethernet,
Bluetooth HCI commands, and USB host, device and hub controllers.

- `src/` is the library, verified with Verus. Devices are modelled by plain
  values: a driver step takes what was read from the hardware and returns
  the register or port accesses to make next (`MmioOp`, `Ps2Op`) together
  with its new state, so every decision a driver makes is stated in a
  contract and proved. Buffers that the hardware reads (text screen,
  framebuffer, sample buffers, virtqueues) are held as owned values.
- `tests/` runs the library against simulated devices.
- `app/` performs the accesses on real hardware (I/O ports and
  memory-mapped registers) and drives the library's step functions.
