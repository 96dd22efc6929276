use vstd::prelude::*;

verus! {

/// Bit position of the refresh event in the interrupt flag registers.
pub const REFRESH_IRQ_BIT: u16 = 0x1;

/// True when an interrupt flag word carries the refresh event.
pub open spec fn is_refresh(flags: u16) -> bool {
    flags & REFRESH_IRQ_BIT != 0
}

/// The process-wide flag shared between the interrupt handler (writer) and
/// the main loop (reader/clearer): "a refresh event has occurred and has not
/// been acknowledged yet". It is the sole datum touched from two execution
/// contexts; everything else belongs to the main loop alone.
pub struct RefreshFlag {
    pub pending: bool,
}

/// The flag state after the interrupt handler ran on one flag word.
pub open spec fn after_irq(f: RefreshFlag, flags: u16) -> RefreshFlag {
    if is_refresh(flags) {
        RefreshFlag { pending: true }
    } else {
        f
    }
}

/// The flag state after the main loop's wait primitive consumed it.
pub open spec fn after_take(f: RefreshFlag) -> RefreshFlag {
    RefreshFlag { pending: false }
}

impl RefreshFlag {
    /// Startup state: cleared.
    pub fn new() -> (f: Self)
        ensures
            !f.pending,
    {
        RefreshFlag { pending: false }
    }

    /// The interrupt handler's whole job, from the observed flag word: set
    /// the pending flag when the refresh source fired, and return the bit to
    /// write back — the same bit position that was observed set — to both the
    /// peripheral-level and the core-level acknowledgment register. Writing
    /// back anything else would leave the interrupt re-firing or never clear.
    /// A wakeup from any other source leaves the flag alone and acknowledges
    /// nothing.
    pub fn handle_irq(&mut self, flags: u16) -> (ack: Option<u16>)
        ensures
            *final(self) == after_irq(*old(self), flags),
            is_refresh(flags) ==> ack == Some(flags & REFRESH_IRQ_BIT),
            !is_refresh(flags) ==> ack is None,
    {
        if flags & REFRESH_IRQ_BIT != 0 {
            self.pending = true;
            Some(flags & REFRESH_IRQ_BIT)
        } else {
            None
        }
    }

    /// The main-loop side of the wait primitive: reports whether a refresh
    /// had been signalled, and leaves the flag cleared either way. The loop
    /// around it keeps parking the processor until this returns true, which
    /// tolerates spurious wakeups from other interrupt sources.
    pub fn try_take_refresh(&mut self) -> (took: bool)
        ensures
            *final(self) == after_take(*old(self)),
            !final(self).pending,
            took == old(self).pending,
    {
        let took = self.pending;
        self.pending = false;
        took
    }
}

/// After the wait primitive resumes, the flag reads as cleared; it becomes
/// set again exactly when a subsequent interrupt carries the refresh bit,
/// never spontaneously.
pub proof fn lemma_refresh_flag(f: RefreshFlag, flags: u16)
    ensures
        !after_take(f).pending,
        after_irq(after_take(f), flags).pending <==> is_refresh(flags),
        after_irq(f, flags).pending ==> f.pending || is_refresh(flags),
{
}

} // verus!
