//! Building blocks of a legacy-BIOS x86 boot loader, each with a
//! machine-checked contract.
//!
//! The boot loader takes the processor from 16-bit real mode through 32-bit
//! protected mode into 64-bit long mode. Every step is a hardware transaction
//! that cannot be taken back, so what is decided and encoded here is stated
//! exactly and proved:
//!
//! - [`gdt`]: segment descriptors, descriptor tables and their pointers;
//! - [`layout`]: the physical address map the stages share;
//! - [`cpu`]: the A20 gate, the CPUID probe and the mode bits;
//! - [`memory_map`]: enumeration of memory through the firmware;
//! - [`paging`]: the page tables that identity-map the first 2 MiB;
//! - [`boot`]: the engine that orders all mode transitions;
//! - [`vbe`]: negotiation of a video mode;
//! - [`framebuffer`]: pixels, glyphs and text on the chosen mode;
//! - [`console`] and [`teletype`]: text output before graphics;
//! - [`image`]: the disk image and how it is read back;
//! - [`bytes`]: little-endian numbers in firmware records.
//!
//! The library touches no hardware. It computes what to write and decides
//! what to do next; its caller performs the transactions and reports their
//! outcomes.

pub mod boot;
pub mod bytes;
pub mod console;
pub mod cpu;
pub mod framebuffer;
pub mod gdt;
pub mod image;
pub mod layout;
pub mod memory_map;
pub mod paging;
pub mod teletype;
pub mod vbe;
