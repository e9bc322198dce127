use vstd::prelude::*;
use crate::cpu::Bus;

verus! {

/// The capability that an external device implements to receive interrupts
/// and to serve reads and writes on memory-mapped addresses it has hooked.
/// `init` runs once at registration, may claim interrupt vectors through the
/// bus with the index it was handed, and returns the memory-mapped addresses
/// it wants routed to itself.
pub trait Peripheral {
    fn init(&self, bus: &mut Bus, index: usize) -> Vec<u16>;

    fn handle_interrupt(&mut self, bus: &mut Bus, int_num: u8) -> usize;

    fn handle_mem_read_byte(&mut self, address: u16) -> u8;

    fn handle_mem_read_word(&mut self, address: u16) -> u16;

    fn handle_mem_write_byte(&mut self, address: u16, val: u8);

    fn handle_mem_write_word(&mut self, address: u16, val: u16);
}

/// One registration slot of the peripheral table: the device is lifted out
/// of its slot while its handler runs, so the handler may reach back into
/// the bus freely.
pub struct DeviceSlot {
    pub dev: Option<std::boxed::Box<dyn Peripheral>>,
}

/// Wraps a device into its registration slot.
pub(crate) fn make_slot(d: std::boxed::Box<dyn Peripheral>) -> (r: DeviceSlot)
    ensures
        r.dev is Some,
{
    DeviceSlot { dev: Some(d) }
}

} // verus!
