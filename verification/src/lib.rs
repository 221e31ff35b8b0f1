//! The programming mode of a USB bootloader, without the hardware: what it
//! does with the feature reports that a host sets, how it stages a firmware
//! image block by block and makes it bootable once its signature is right,
//! and how it frames what goes out on the serial line to the device behind
//! it.
//!
//! The library decides and the caller acts. Whatever has to happen on the
//! hardware comes back as a value for the caller to carry out, and what the
//! hardware answered goes in as a value.

pub mod bytes;
pub mod clock;
pub mod descriptor;
pub mod device;
pub mod flash;
pub mod flash_laws;
pub mod framing;
pub mod led;
pub mod report;
pub mod ring_buffer;
pub mod uart;
