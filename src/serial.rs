//! The 16550 UART: its register ports, the setup writes, and the bytes
//! that go out for one byte of text.
use vstd::prelude::*;

verus! {

/// First port of the first serial line.
pub const SERIAL1_PORT: u16 = 0x3F8;

/// Line-status bit: the transmitter can take a byte.
pub const OUTPUT_EMPTY: u8 = 0x20;

/// A UART at a base port; its registers take the next five ports.
#[derive(Clone, Copy, Debug, PartialEq, Eq)]
pub struct SerialPort(u16);

impl View for SerialPort {
    type V = u16;

    closed spec fn view(&self) -> u16 {
        self.0
    }
}

impl SerialPort {
    pub fn new(port: u16) -> (r: SerialPort)
        ensures
            r@ == port,
    {
        SerialPort(port)
    }

    fn base_port(&self) -> (r: u16)
        ensures
            r == self@,
    {
        self.0
    }

    /// The data port, for sending and receiving.
    pub fn data_port(&self) -> (r: u16)
        ensures
            r == self@,
    {
        self.base_port()
    }

    fn enable_interrupt_port(&self) -> (r: u16)
        requires
            self@ <= 0xfffa,
        ensures
            r == self@ + 1,
    {
        self.base_port() + 1
    }

    fn fifo_control_port(&self) -> (r: u16)
        requires
            self@ <= 0xfffa,
        ensures
            r == self@ + 2,
    {
        self.base_port() + 2
    }

    fn line_control_port(&self) -> (r: u16)
        requires
            self@ <= 0xfffa,
        ensures
            r == self@ + 3,
    {
        self.base_port() + 3
    }

    fn modem_control_port(&self) -> (r: u16)
        requires
            self@ <= 0xfffa,
        ensures
            r == self@ + 4,
    {
        self.base_port() + 4
    }

    /// The line-status port.
    pub fn line_sts_port(&self) -> (r: u16)
        requires
            self@ <= 0xfffa,
        ensures
            r == self@ + 5,
    {
        self.base_port() + 5
    }

    /// The writes that set the line up: interrupts off, 38400 baud, 8-bit
    /// words, FIFOs on and cleared, modem lines set, interrupts on.
    pub fn init(&self) -> (r: Vec<(u16, u8)>)
        requires
            self@ <= 0xfffa,
        ensures
            r@ == seq![
                ((self@ + 1) as u16, 0x00u8),
                ((self@ + 3) as u16, 0x80u8),
                (self@, 0x03u8),
                ((self@ + 1) as u16, 0x00u8),
                ((self@ + 3) as u16, 0x03u8),
                ((self@ + 2) as u16, 0xc7u8),
                ((self@ + 4) as u16, 0x0bu8),
                ((self@ + 1) as u16, 0x01u8),
            ],
    {
        let mut w: Vec<(u16, u8)> = Vec::new();
        w.push((self.enable_interrupt_port(), 0x00));
        w.push((self.line_control_port(), 0x80));
        w.push((self.data_port(), 0x03));
        w.push((self.enable_interrupt_port(), 0x00));
        w.push((self.line_control_port(), 0x03));
        w.push((self.fifo_control_port(), 0xc7));
        w.push((self.modem_control_port(), 0x0b));
        w.push((self.enable_interrupt_port(), 0x01));
        assert(w@ =~= seq![
            ((self@ + 1) as u16, 0x00u8),
            ((self@ + 3) as u16, 0x80u8),
            (self@, 0x03u8),
            ((self@ + 1) as u16, 0x00u8),
            ((self@ + 3) as u16, 0x03u8),
            ((self@ + 2) as u16, 0xc7u8),
            ((self@ + 4) as u16, 0x0bu8),
            ((self@ + 1) as u16, 0x01u8),
        ]);
        w
    }

    /// The raw bytes that go out for `data`: a backspace or delete erases
    /// the last character (back, space, back); any other byte goes as is.
    pub fn send(&self, data: u8) -> (r: Vec<u8>)
        ensures
            r@ == if data == 8 || data == 0x7f {
                seq![8u8, 0x20u8, 8u8]
            } else {
                seq![data]
            },
    {
        let mut out: Vec<u8> = Vec::new();
        match data {
            8 | 0x7F => {
                out.push(8);
                out.push(0x20);
                out.push(8);
            },
            _ => {
                out.push(data);
            },
        }
        proof {
            if data == 8 || data == 0x7f {
                assert(out@ =~= seq![8u8, 0x20u8, 8u8]);
            } else {
                assert(out@ =~= seq![data]);
            }
        }
        out
    }
}

} // verus!
