use vstd::prelude::*;

verus! {

/// A memory-mapped peripheral connected to the bus.
///
/// Each peripheral states which addresses it decodes (`maps`) and what it
/// keeps well formed (`io_wf`); its implementation adds the exact effect of
/// every operation to these generic contracts.
pub trait IODevice {
    /// What the peripheral keeps true between operations.
    spec fn io_wf(&self) -> bool;

    /// The addresses that the peripheral decodes.
    spec fn maps(&self, addr: u16) -> bool;

    /// Writes a byte to an address.
    fn write(&mut self, addr: u16, val: u8)
        requires
            old(self).io_wf(),
            old(self).maps(addr),
        ensures
            final(self).io_wf(),
    ;

    /// Reads a byte from an address.
    fn read(&self, addr: u16) -> (r: u8)
        requires
            self.io_wf(),
            self.maps(addr),
    ;

    /// Progresses the clock for a given number of ticks.
    fn update(&mut self, tick: u8)
        requires
            old(self).io_wf(),
            tick <= 24,
        ensures
            final(self).io_wf(),
    ;
}

} // verus!
