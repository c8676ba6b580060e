//! Protection and address-translation core of an x86-64 kernel: canonical
//! addresses, page and frame arithmetic, the page-table entry encoding and
//! the four-level walk, descriptor tables, and the chained interrupt
//! controllers; with the small device models around them (text screen,
//! serial line, PCI configuration space, shell).
mod bits;

pub mod addr;
pub mod frame;
pub mod page;
pub mod page_table;

pub mod mapper;

pub mod gdt;
pub mod idt;
pub mod interrupts;
pub mod pic;
pub mod port;
pub mod registers;

pub mod pci;
pub mod qemu;
pub mod serial;
pub mod shell;
pub mod tty;
pub mod vga;
