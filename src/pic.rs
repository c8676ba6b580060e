//! The two cascaded 8259 interrupt controllers: remapping them to chosen
//! vector windows and acknowledging interrupts.
use crate::port::Port;
use vstd::prelude::*;

verus! {

/// Command byte that starts the initialisation handshake.
pub const CMD_INIT: u8 = 0x11;

/// Command byte that acknowledges an interrupt.
pub const CMD_END_OF_INTERRUPT: u8 = 0x20;

/// Mode byte: 8086 mode.
pub const MODE_8086: u8 = 0x01;

/// Unused port written to give the controllers time between commands.
pub const WAIT_PORT: u16 = 0x80;

pub const PRIMARY_COMMAND: u16 = 0x20;
pub const PRIMARY_DATA: u16 = 0x21;
pub const SECONDARY_COMMAND: u16 = 0xA0;
pub const SECONDARY_DATA: u16 = 0xA1;

/// One controller: eight vectors from `offset`.
#[derive(Debug)]
struct Pic {
    offset: u8,
    command: Port<u8>,
    data: Port<u8>,
}

impl Pic {
    spec fn spec_handles(&self, interrupt_id: u8) -> bool {
        self.offset <= interrupt_id < self.offset + 8
    }

    fn handles_interrupt(&self, interrupt_id: u8) -> (r: bool)
        ensures
            r == self.spec_handles(interrupt_id),
    {
        self.offset <= interrupt_id && (interrupt_id as u16) < self.offset as u16 + 8
    }
}

/// The vector window `[o1, o1 + 8)` and `[o2, o2 + 8)` of the two
/// controllers lie above the 32 exception vectors, inside 0 to 255, and do
/// not overlap.
pub open spec fn valid_offsets(o1: u8, o2: u8) -> bool {
    &&& 32 <= o1 && o1 + 8 <= 256
    &&& 32 <= o2 && o2 + 8 <= 256
    &&& (o1 + 8 <= o2 || o2 + 8 <= o1)
}

/// The primary controller and the secondary one cascaded on its line 2.
#[derive(Debug)]
pub struct ChainedPics {
    primary: Pic,
    secondary: Pic,
}

impl ChainedPics {
    pub closed spec fn primary_offset(&self) -> u8 {
        self.primary.offset
    }

    pub closed spec fn secondary_offset(&self) -> u8 {
        self.secondary.offset
    }

    pub closed spec fn wf(&self) -> bool {
        &&& self.primary.command@ == PRIMARY_COMMAND
        &&& self.primary.data@ == PRIMARY_DATA
        &&& self.secondary.command@ == SECONDARY_COMMAND
        &&& self.secondary.data@ == SECONDARY_DATA
    }

    /// `interrupt_id` is in the window of the primary or the secondary.
    pub open spec fn spec_handles(&self, interrupt_id: u8) -> bool {
        self.primary_offset() <= interrupt_id < self.primary_offset() + 8
            || self.secondary_offset() <= interrupt_id < self.secondary_offset() + 8
    }

    /// Controllers that will deliver vectors from `offset1` (primary) and
    /// `offset2` (secondary) once initialised.
    pub fn new(offset1: u8, offset2: u8) -> (r: ChainedPics)
        requires
            valid_offsets(offset1, offset2),
        ensures
            r.wf(),
            r.primary_offset() == offset1,
            r.secondary_offset() == offset2,
    {
        ChainedPics {
            primary: Pic {
                offset: offset1,
                command: Port::new(PRIMARY_COMMAND),
                data: Port::new(PRIMARY_DATA),
            },
            secondary: Pic {
                offset: offset2,
                command: Port::new(SECONDARY_COMMAND),
                data: Port::new(SECONDARY_DATA),
            },
        }
    }

    /// The byte writes that remap both controllers to their windows, given
    /// the interrupt masks `saved_masks` read from their data ports before:
    /// init command, vector base, cascade wiring, mode, each step to both
    /// controllers with a write to the wait port after every byte, and then
    /// the saved masks back.
    pub fn initialize(&self, saved_masks: (u8, u8)) -> (r: Vec<(u16, u8)>)
        requires
            self.wf(),
        ensures
            r@ == init_sequence(self.primary_offset(), self.secondary_offset(), saved_masks),
    {
        let mut writes: Vec<(u16, u8)> = Vec::new();
        let wait = (WAIT_PORT, 0u8);
        let c0 = self.primary.command.number();
        let c1 = self.secondary.command.number();
        let d0 = self.primary.data.number();
        let d1 = self.secondary.data.number();
        writes.push((c0, CMD_INIT));
        writes.push(wait);
        writes.push((c1, CMD_INIT));
        writes.push(wait);
        writes.push((d0, self.primary.offset));
        writes.push(wait);
        writes.push((d1, self.secondary.offset));
        writes.push(wait);
        writes.push((d0, 4));
        writes.push(wait);
        writes.push((d1, 2));
        writes.push(wait);
        writes.push((d0, MODE_8086));
        writes.push(wait);
        writes.push((d1, MODE_8086));
        writes.push(wait);
        writes.push((d0, saved_masks.0));
        writes.push((d1, saved_masks.1));
        assert(writes@ =~= init_sequence(self.primary_offset(), self.secondary_offset(), saved_masks));
        writes
    }

    /// The vector `interrupt_id` is delivered by one of the controllers.
    pub fn handles_interrupt(&self, interrupt_id: u8) -> (r: bool)
        ensures
            r == self.spec_handles(interrupt_id),
    {
        self.primary.handles_interrupt(interrupt_id) || self.secondary.handles_interrupt(
            interrupt_id,
        )
    }

    /// The command ports that must receive the end-of-interrupt byte after
    /// vector `interrupt_id` was serviced, in order: the secondary first
    /// when the vector is its own, then the primary, through which the
    /// secondary is cascaded; none for a vector of neither.
    pub fn notify_end_of_interrupt(&self, interrupt_id: u8) -> (r: Vec<u16>)
        requires
            self.wf(),
        ensures
            r@ == eoi_ports(self.primary_offset(), self.secondary_offset(), interrupt_id),
    {
        let mut ports: Vec<u16> = Vec::new();
        if self.handles_interrupt(interrupt_id) {
            if self.secondary.handles_interrupt(interrupt_id) {
                ports.push(self.secondary.command.number());
            }
            ports.push(self.primary.command.number());
        }
        assert(ports@ =~= eoi_ports(self.primary_offset(), self.secondary_offset(), interrupt_id));
        ports
    }
}

/// The initialisation writes for offsets `o1`, `o2` and saved masks `m`.
pub open spec fn init_sequence(o1: u8, o2: u8, m: (u8, u8)) -> Seq<(u16, u8)> {
    let w = (WAIT_PORT, 0u8);
    seq![
        (PRIMARY_COMMAND, CMD_INIT), w, (SECONDARY_COMMAND, CMD_INIT), w,
        (PRIMARY_DATA, o1), w, (SECONDARY_DATA, o2), w,
        (PRIMARY_DATA, 4u8), w, (SECONDARY_DATA, 2u8), w,
        (PRIMARY_DATA, MODE_8086), w, (SECONDARY_DATA, MODE_8086), w,
        (PRIMARY_DATA, m.0), (SECONDARY_DATA, m.1),
    ]
}

/// The command ports to acknowledge vector `v` on, in order.
pub open spec fn eoi_ports(o1: u8, o2: u8, v: u8) -> Seq<u16> {
    if o2 <= v < o2 + 8 {
        seq![SECONDARY_COMMAND, PRIMARY_COMMAND]
    } else if o1 <= v < o1 + 8 {
        seq![PRIMARY_COMMAND]
    } else {
        seq![]
    }
}

/// For a vector of the secondary controller, the secondary is acknowledged
/// before the primary, and each exactly once.
pub proof fn lemma_secondary_acknowledged_first(o1: u8, o2: u8, v: u8)
    requires
        o2 <= v < o2 + 8,
    ensures
        eoi_ports(o1, o2, v) == seq![SECONDARY_COMMAND, PRIMARY_COMMAND],
{
}

} // verus!
