//! The system-configuration controller (SYSCON), modeled as the clock-tree
//! registers the USB drivers manipulate directly — the USB0 clock divider and
//! source select, and the shared USB1 SRAM clock gate — plus the per-block
//! reset and AHB clock-gate operations.
//!
//! Writing any of the USB0 clock-setup registers puts a divider change in
//! flight: the hardware raises a request flag that stays set for a
//! hardware-dependent number of polls, modeled by `usb0clkdiv_latency`.  The
//! busy-wait [`Syscon::wait_usb0clkdiv`] polls until the flag clears.

use vstd::prelude::*;

use crate::registers::RegBlock;
use crate::trace::{HwBlock, HwOp, HwTrace};

verus! {

/// The USB0 clock source selector value for the 96 MHz FRO.
pub const USB0CLKSEL_FRO_96MHZ: u8 = 3;

/// The SYSCON registers the USB drivers use: a clock-gating field holds
/// `true` while the corresponding block receives its bus clock.
#[derive(Clone, Copy, Debug, PartialEq, Eq, Structural)]
pub struct Syscon {
    /// USB0CLKDIV.DIV: the divisor field, one less than the divisor.
    pub usb0clkdiv_div: u8,
    /// USB0CLKDIV.HALT: whether the divider is halted.
    pub usb0clkdiv_halted: bool,
    /// USB0CLKSEL.SEL: the selected clock source.
    pub usb0clksel: u8,
    /// How many polls of USB0CLKDIV.REQFLAG remain before a pending divider
    /// change settles; zero means no change is in flight.
    pub usb0clkdiv_pending: u32,
    /// How long the hardware keeps a divider change in flight: each clock-
    /// setup write sets `usb0clkdiv_pending` to this value.
    pub usb0clkdiv_latency: u32,
    /// AHBCLKCTRL2.USB1_RAM: the shared USB1 SRAM clock gate.
    pub usb1_ram_clock: bool,
    pub usb_fs_dev_clock: bool,
    pub usb_fs_host_clock: bool,
    pub usb_hs_dev_clock: bool,
    pub usb_hs_host_clock: bool,
    pub usb_hs_phy_clock: bool,
}

impl Syscon {
    /// `self` with the AHB clock gate of block `b` switched to `on`.
    pub open spec fn with_clock(self, b: HwBlock, on: bool) -> Syscon {
        match b {
            HwBlock::UsbFsDev => Syscon { usb_fs_dev_clock: on, ..self },
            HwBlock::UsbFsHost => Syscon { usb_fs_host_clock: on, ..self },
            HwBlock::UsbHsDev => Syscon { usb_hs_dev_clock: on, ..self },
            HwBlock::UsbHsHost => Syscon { usb_hs_host_clock: on, ..self },
            HwBlock::UsbHsPhy => Syscon { usb_hs_phy_clock: on, ..self },
        }
    }

    /// Whether the AHB clock gate of block `b` is open.
    pub open spec fn clocked(self, b: HwBlock) -> bool {
        match b {
            HwBlock::UsbFsDev => self.usb_fs_dev_clock,
            HwBlock::UsbFsHost => self.usb_fs_host_clock,
            HwBlock::UsbHsDev => self.usb_hs_dev_clock,
            HwBlock::UsbHsHost => self.usb_hs_host_clock,
            HwBlock::UsbHsPhy => self.usb_hs_phy_clock,
        }
    }

    /// Issues a reset pulse to the given register block, putting its
    /// registers into their after-reset contents.
    pub fn reset<B: RegBlock>(&mut self, block: &mut B, t: &mut HwTrace)
        ensures
            *final(self) == *old(self),
            *final(block) == old(block).reset_state(),
            final(t).ops@ == old(t).ops@.push(HwOp::Reset { block: B::id() }),
    {
        block.apply_reset();
        let b = B::block_id();
        t.record(HwOp::Reset { block: b });
    }

    /// Opens the AHB clock gate of the given register block.
    pub fn enable_clock<B: RegBlock>(&mut self, block: &mut B, t: &mut HwTrace)
        ensures
            *final(self) == old(self).with_clock(B::id(), true),
            *final(block) == *old(block),
            final(t).ops@ == old(t).ops@.push(HwOp::ClockEnable { block: B::id() }),
    {
        let b = B::block_id();
        match b {
            HwBlock::UsbFsDev => self.usb_fs_dev_clock = true,
            HwBlock::UsbFsHost => self.usb_fs_host_clock = true,
            HwBlock::UsbHsDev => self.usb_hs_dev_clock = true,
            HwBlock::UsbHsHost => self.usb_hs_host_clock = true,
            HwBlock::UsbHsPhy => self.usb_hs_phy_clock = true,
        }
        t.record(HwOp::ClockEnable { block: b });
    }

    /// Closes the AHB clock gate of the given register block.
    pub fn disable_clock<B: RegBlock>(&mut self, block: &mut B, t: &mut HwTrace)
        ensures
            *final(self) == old(self).with_clock(B::id(), false),
            *final(block) == *old(block),
            final(t).ops@ == old(t).ops@.push(HwOp::ClockDisable { block: B::id() }),
    {
        let b = B::block_id();
        match b {
            HwBlock::UsbFsDev => self.usb_fs_dev_clock = false,
            HwBlock::UsbFsHost => self.usb_fs_host_clock = false,
            HwBlock::UsbHsDev => self.usb_hs_dev_clock = false,
            HwBlock::UsbHsHost => self.usb_hs_host_clock = false,
            HwBlock::UsbHsPhy => self.usb_hs_phy_clock = false,
        }
        t.record(HwOp::ClockDisable { block: b });
    }

    /// Writes the USB0 clock divider's divisor field; the change goes in
    /// flight.
    pub fn set_usb0clkdiv_div(&mut self, div: u8, t: &mut HwTrace)
        ensures
            *final(self) == (Syscon {
                usb0clkdiv_div: div,
                usb0clkdiv_pending: old(self).usb0clkdiv_latency,
                ..*old(self)
            }),
            final(t).ops@ == old(t).ops@.push(HwOp::Usb0ClkDivWrite { div }),
    {
        self.usb0clkdiv_div = div;
        self.usb0clkdiv_pending = self.usb0clkdiv_latency;
        t.record(HwOp::Usb0ClkDivWrite { div });
    }

    /// Releases the USB0 clock divider from halt; the change goes in flight.
    pub fn run_usb0clkdiv(&mut self, t: &mut HwTrace)
        ensures
            *final(self) == (Syscon {
                usb0clkdiv_halted: false,
                usb0clkdiv_pending: old(self).usb0clkdiv_latency,
                ..*old(self)
            }),
            final(t).ops@ == old(t).ops@.push(HwOp::Usb0ClkDivRun),
    {
        self.usb0clkdiv_halted = false;
        self.usb0clkdiv_pending = self.usb0clkdiv_latency;
        t.record(HwOp::Usb0ClkDivRun);
    }

    /// Selects the 96 MHz FRO as the USB0 clock source; the change goes in
    /// flight.
    pub fn select_usb0clk_fro96mhz(&mut self, t: &mut HwTrace)
        ensures
            *final(self) == (Syscon {
                usb0clksel: USB0CLKSEL_FRO_96MHZ,
                usb0clkdiv_pending: old(self).usb0clkdiv_latency,
                ..*old(self)
            }),
            final(t).ops@ == old(t).ops@.push(HwOp::Usb0ClkSelWrite { sel: USB0CLKSEL_FRO_96MHZ }),
    {
        self.usb0clksel = USB0CLKSEL_FRO_96MHZ;
        self.usb0clkdiv_pending = self.usb0clkdiv_latency;
        t.record(HwOp::Usb0ClkSelWrite { sel: USB0CLKSEL_FRO_96MHZ });
    }

    /// One poll of USB0CLKDIV.REQFLAG: reports whether a divider change is
    /// still in flight, and lets modeled time pass.
    pub fn poll_usb0clkdiv(&mut self) -> (ongoing: bool)
        ensures
            ongoing == (old(self).usb0clkdiv_pending > 0),
            *final(self) == (Syscon {
                usb0clkdiv_pending: if old(self).usb0clkdiv_pending > 0 {
                    (old(self).usb0clkdiv_pending - 1) as u32
                } else {
                    0
                },
                ..*old(self)
            }),
    {
        if self.usb0clkdiv_pending > 0 {
            self.usb0clkdiv_pending = self.usb0clkdiv_pending - 1;
            true
        } else {
            false
        }
    }

    /// Busy-waits until the hardware reports that the divider change is no
    /// longer in flight.  The poll is unbounded: it returns when — and only
    /// when — the pending change settles.
    pub fn wait_usb0clkdiv(&mut self, t: &mut HwTrace)
        ensures
            *final(self) == (Syscon { usb0clkdiv_pending: 0, ..*old(self) }),
            final(t).ops@ == old(t).ops@.push(HwOp::Usb0ClkDivSettled),
    {
        loop
            invariant
                *self == (Syscon { usb0clkdiv_pending: self.usb0clkdiv_pending, ..*old(self) }),
            ensures
                *self == (Syscon { usb0clkdiv_pending: 0, ..*old(self) }),
            decreases self.usb0clkdiv_pending,
        {
            let ongoing = self.poll_usb0clkdiv();
            if !ongoing {
                break;
            }
        }
        t.record(HwOp::Usb0ClkDivSettled);
    }

    /// Opens the shared USB1 SRAM clock gate.
    pub fn enable_usb1_ram_clock(&mut self, t: &mut HwTrace)
        ensures
            *final(self) == (Syscon { usb1_ram_clock: true, ..*old(self) }),
            final(t).ops@ == old(t).ops@.push(HwOp::Usb1SramClockEnable),
    {
        self.usb1_ram_clock = true;
        t.record(HwOp::Usb1SramClockEnable);
    }
}

} // verus!
