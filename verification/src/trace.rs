//! A recorded trace of hardware operations.
//!
//! Every register operation a transition performs — writes, resets, clock
//! gating, power switching, busy-wait completions, timed delays — appends one
//! [`HwOp`] to a [`HwTrace`].  The contracts of the transition methods state
//! the exact sequence of operations appended, so ordering requirements of the
//! hardware sequencing protocol are theorems about these traces.

use vstd::prelude::*;

verus! {

/// Identity of one hardware register block owned by a USB peripheral handle.
#[derive(Clone, Copy, Debug, PartialEq, Eq, Structural)]
pub enum HwBlock {
    /// Full-speed device-mode controller registers (USB0).
    UsbFsDev,
    /// Full-speed host-mode controller registers (USBFSH).
    UsbFsHost,
    /// High-speed device-mode controller registers (USB1).
    UsbHsDev,
    /// High-speed host-mode controller registers (USBHSH).
    UsbHsHost,
    /// High-speed analog PHY registers (USBPHY).
    UsbHsPhy,
}

/// One observable hardware operation.
#[derive(Clone, Copy, Debug, PartialEq, Eq, Structural)]
pub enum HwOp {
    /// SYSCON: the USB0 clock divider's divisor field was written.
    Usb0ClkDivWrite { div: u8 },
    /// SYSCON: the USB0 clock divider was released from halt.
    Usb0ClkDivRun,
    /// SYSCON: the USB0 clock source was selected.
    Usb0ClkSelWrite { sel: u8 },
    /// SYSCON: the busy-wait on the USB0 clock divider request flag ended —
    /// the divider change is no longer in flight.
    Usb0ClkDivSettled,
    /// PMC: the power domain of a register block was switched on.
    PowerOn { block: HwBlock },
    /// PMC: the power domain of a register block was switched off.
    PowerOff { block: HwBlock },
    /// SYSCON: a reset pulse was issued to a register block.
    Reset { block: HwBlock },
    /// SYSCON: the AHB clock gate of a register block was opened.
    ClockEnable { block: HwBlock },
    /// SYSCON: the AHB clock gate of a register block was closed.
    ClockDisable { block: HwBlock },
    /// The "device enable" bit of a shared port-mode register was set,
    /// switching the physical port from host to device wiring.
    PortModeDeviceEnable { block: HwBlock },
    /// SYSCON: the shared USB1 SRAM clock gate was opened.
    Usb1SramClockEnable,
    /// ANACTRL: locking of the 192 MHz FRO to USB start-of-frame packets
    /// was requested.
    SofLockRequest,
    /// ANACTRL: the busy-wait on the lock-change-in-progress flag ended.
    SofLockSettled,
    /// PMC: the 32 MHz crystal oscillator was powered on.
    Xtal32mPowerOn,
    /// PMC: the 32 MHz crystal oscillator was powered off.
    Xtal32mPowerOff,
    /// PMC: the regulator of the 32 MHz crystal oscillator was powered on.
    LdoXo32mPowerOn,
    /// PMC: the regulator of the 32 MHz crystal oscillator was powered off.
    LdoXo32mPowerOff,
    /// ANACTRL: routing of the crystal oscillator output to the USB PLL was
    /// enabled.
    PllUsbOutEnable,
    /// A countdown timer was started for the given number of microseconds.
    TimerStart { us: u32 },
    /// The running countdown elapsed; the blocking wait on it returned.
    TimerElapsed,
    /// USBPHY: the control register was written back to its base
    /// configuration with the soft-reset bit cleared.
    PhyCtrlInit,
    /// USBPHY: the PLL divisor was programmed and the PLL regulator enabled.
    PhyPllConfig { div_sel: u8 },
    /// USBPHY: the undocumented PLL control bit required by the vendor
    /// reference code was cleared.
    PhyPllMiscClear,
    /// USBPHY: PLL power and USB clock output were enabled.
    PhyPllPowerOn,
    /// USBPHY: the clock gate was opened with auto-clear-on-gate configured.
    PhyClockGateOpen,
    /// USBPHY: zero was written to the power-down register, energizing all
    /// PHY sub-blocks.
    PhyPowerAllOn,
    /// USBPHY: the high-speed transmit sub-block was force-powered-down,
    /// coercing the link into full-speed-only operation.
    PhyTxPowerDown,
}

/// The recorded sequence of hardware operations, oldest first.
pub struct HwTrace {
    pub ops: Vec<HwOp>,
}

impl HwTrace {
    /// An empty trace.
    pub fn new() -> (t: HwTrace)
        ensures
            t.ops@ == Seq::<HwOp>::empty(),
    {
        HwTrace { ops: Vec::new() }
    }

    /// Appends one operation to the trace.
    pub fn record(&mut self, op: HwOp)
        ensures
            final(self).ops@ == old(self).ops@.push(op),
    {
        self.ops.push(op);
    }

    /// The number of recorded operations.
    pub fn len(&self) -> (n: usize)
        ensures
            n == self.ops@.len(),
    {
        self.ops.len()
    }

    /// The operation recorded at position `i`, oldest first.
    pub fn op_at(&self, i: usize) -> (op: HwOp)
        requires
            i < self.ops@.len(),
        ensures
            op == self.ops@[i as int],
    {
        self.ops[i]
    }
}

} // verus!
