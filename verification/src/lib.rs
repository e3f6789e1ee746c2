//! Architecture support for booting a guest on a RISC-V virtual machine:
//! the platform memory map, register addressing for the host interface,
//! the interrupt-controller topology, and the device tree handed to the
//! guest firmware.

pub mod aia;
pub mod cpu_config;
pub mod device;
pub mod fdt;
pub mod fdt_handles;
pub mod fdt_items;
pub mod fdt_order;
pub mod fdt_size;
pub mod host;
pub mod kvm;
pub mod layout;
pub mod memory;
pub mod names;
pub mod regs;
pub mod system;
pub mod tree;
pub mod vcpu;
pub mod vm;
pub mod writer;
