//! Register blocks of the USB peripherals, modeled as plain values.
//!
//! Each memory-mapped block a handle owns is represented by the named fields
//! the sequencing protocol reads and writes; owning one of these values stands
//! for exclusive ownership of the corresponding hardware block.  Writes a
//! driver performs on a block are methods with exact contracts, and each one
//! records a [`HwOp`] in the trace.

use vstd::prelude::*;

use crate::trace::{HwBlock, HwOp, HwTrace};

verus! {

/// Implemented by each modeled register block: its hardware identity and the
/// register contents a reset pulse leaves behind.
pub trait RegBlock: Sized {
    /// The identity of this block.
    spec fn id() -> HwBlock;

    /// The contents of the block after a reset pulse.
    spec fn reset_state(self) -> Self;

    /// The identity of this block, as a value.
    fn block_id() -> (b: HwBlock)
        ensures
            b == Self::id(),
    ;

    /// Puts the block's registers into their after-reset contents.
    fn apply_reset(&mut self)
        ensures
            *final(self) == old(self).reset_state(),
    ;
}

/// The full-speed device-mode controller registers (USB0): the fields of its
/// read-only INFO status register.  A reset pulse does not change them — they
/// report silicon revision and link status, not configuration.
#[derive(Clone, Copy, Debug, PartialEq, Eq, Structural)]
pub struct UsbFsDev {
    pub maj_rev: u8,
    pub min_rev: u8,
    pub err_code: u8,
    pub frame_nr: u16,
}

impl RegBlock for UsbFsDev {
    open spec fn id() -> HwBlock {
        HwBlock::UsbFsDev
    }

    open spec fn reset_state(self) -> Self {
        self
    }

    fn block_id() -> (b: HwBlock) {
        HwBlock::UsbFsDev
    }

    fn apply_reset(&mut self) {
    }
}

/// The full-speed host-mode controller registers (USBFSH): the shared
/// port-mode register's "device enable" bit, which switches the physical
/// port from its default host wiring to device wiring.
#[derive(Clone, Copy, Debug, PartialEq, Eq, Structural)]
pub struct UsbFsHost {
    pub portmode_dev_enable: bool,
}

impl RegBlock for UsbFsHost {
    open spec fn id() -> HwBlock {
        HwBlock::UsbFsHost
    }

    open spec fn reset_state(self) -> Self {
        UsbFsHost { portmode_dev_enable: false }
    }

    fn block_id() -> (b: HwBlock) {
        HwBlock::UsbFsHost
    }

    fn apply_reset(&mut self) {
        self.portmode_dev_enable = false;
    }
}

impl UsbFsHost {
    /// Sets the "device enable" bit of the port-mode register.  The block's
    /// clock gate must be open for the write to reach the hardware; the
    /// caller sequences that.
    pub fn set_portmode_device(&mut self, t: &mut HwTrace)
        ensures
            *final(self) == (UsbFsHost { portmode_dev_enable: true }),
            final(t).ops@ == old(t).ops@.push(HwOp::PortModeDeviceEnable { block: HwBlock::UsbFsHost }),
    {
        self.portmode_dev_enable = true;
        t.record(HwOp::PortModeDeviceEnable { block: HwBlock::UsbFsHost });
    }
}

/// The high-speed device-mode controller registers (USB1): the fields of its
/// read-only INFO status register.
#[derive(Clone, Copy, Debug, PartialEq, Eq, Structural)]
pub struct UsbHsDev {
    pub maj_rev: u8,
    pub min_rev: u8,
    pub err_code: u8,
    pub frame_nr: u16,
}

impl RegBlock for UsbHsDev {
    open spec fn id() -> HwBlock {
        HwBlock::UsbHsDev
    }

    open spec fn reset_state(self) -> Self {
        self
    }

    fn block_id() -> (b: HwBlock) {
        HwBlock::UsbHsDev
    }

    fn apply_reset(&mut self) {
    }
}

/// The high-speed host-mode controller registers (USBHSH): the shared
/// port-mode register's "device enable" bit.
#[derive(Clone, Copy, Debug, PartialEq, Eq, Structural)]
pub struct UsbHsHost {
    pub portmode_dev_enable: bool,
}

impl RegBlock for UsbHsHost {
    open spec fn id() -> HwBlock {
        HwBlock::UsbHsHost
    }

    open spec fn reset_state(self) -> Self {
        UsbHsHost { portmode_dev_enable: false }
    }

    fn block_id() -> (b: HwBlock) {
        HwBlock::UsbHsHost
    }

    fn apply_reset(&mut self) {
        self.portmode_dev_enable = false;
    }
}

impl UsbHsHost {
    /// Sets the "device enable" bit of the port-mode register.  The block's
    /// clock gate must be open for the write to reach the hardware; the
    /// caller sequences that.
    pub fn set_portmode_device(&mut self, t: &mut HwTrace)
        ensures
            *final(self) == (UsbHsHost { portmode_dev_enable: true }),
            final(t).ops@ == old(t).ops@.push(HwOp::PortModeDeviceEnable { block: HwBlock::UsbHsHost }),
    {
        self.portmode_dev_enable = true;
        t.record(HwOp::PortModeDeviceEnable { block: HwBlock::UsbHsHost });
    }
}

/// The high-speed analog PHY registers (USBPHY): the control, PLL and
/// power-down fields the enable protocol programs.
///
/// `pwd` is the power-down register: a zero value energizes every PHY
/// sub-block; after a reset pulse the model marks every sub-block powered
/// down.  Bit 12 of `pwd` gates the high-speed transmitter.
#[derive(Clone, Copy, Debug, PartialEq, Eq, Structural)]
pub struct UsbHsPhy {
    pub ctrl_sftrst: bool,
    pub ctrl_clkgate: bool,
    pub ctrl_enautoclr_clkgate: bool,
    pub ctrl_enautoclr_phy_pwd: bool,
    pub pll_div_sel: u8,
    pub pll_reg_enable: bool,
    pub pll_misc: bool,
    pub pll_power: bool,
    pub pll_en_usb_clks: bool,
    pub pwd: u32,
}

impl RegBlock for UsbHsPhy {
    open spec fn id() -> HwBlock {
        HwBlock::UsbHsPhy
    }

    open spec fn reset_state(self) -> Self {
        UsbHsPhy {
            ctrl_sftrst: true,
            ctrl_clkgate: true,
            ctrl_enautoclr_clkgate: false,
            ctrl_enautoclr_phy_pwd: false,
            pll_div_sel: 0,
            pll_reg_enable: false,
            pll_misc: true,
            pll_power: false,
            pll_en_usb_clks: false,
            pwd: 0xffff_ffff,
        }
    }

    fn block_id() -> (b: HwBlock) {
        HwBlock::UsbHsPhy
    }

    fn apply_reset(&mut self) {
        self.ctrl_sftrst = true;
        self.ctrl_clkgate = true;
        self.ctrl_enautoclr_clkgate = false;
        self.ctrl_enautoclr_phy_pwd = false;
        self.pll_div_sel = 0;
        self.pll_reg_enable = false;
        self.pll_misc = true;
        self.pll_power = false;
        self.pll_en_usb_clks = false;
        self.pwd = 0xffff_ffff;
    }
}

impl UsbHsPhy {
    /// Writes the control register back to its base configuration with the
    /// soft-reset bit cleared: the clock stays gated, auto-clear behavior off.
    pub fn ctrl_init(&mut self, t: &mut HwTrace)
        ensures
            *final(self) == (UsbHsPhy {
                ctrl_sftrst: false,
                ctrl_clkgate: true,
                ctrl_enautoclr_clkgate: false,
                ctrl_enautoclr_phy_pwd: false,
                ..*old(self)
            }),
            final(t).ops@ == old(t).ops@.push(HwOp::PhyCtrlInit),
    {
        self.ctrl_sftrst = false;
        self.ctrl_clkgate = true;
        self.ctrl_enautoclr_clkgate = false;
        self.ctrl_enautoclr_phy_pwd = false;
        t.record(HwOp::PhyCtrlInit);
    }

    /// Programs the PLL divisor and enables the PLL regulator.
    pub fn pll_configure(&mut self, div_sel: u8, t: &mut HwTrace)
        ensures
            *final(self) == (UsbHsPhy { pll_div_sel: div_sel, pll_reg_enable: true, ..*old(self) }),
            final(t).ops@ == old(t).ops@.push(HwOp::PhyPllConfig { div_sel }),
    {
        self.pll_div_sel = div_sel;
        self.pll_reg_enable = true;
        t.record(HwOp::PhyPllConfig { div_sel });
    }

    /// Clears the undocumented PLL control bit that the vendor reference
    /// code requires to be cleared.
    pub fn pll_misc_clear(&mut self, t: &mut HwTrace)
        ensures
            *final(self) == (UsbHsPhy { pll_misc: false, ..*old(self) }),
            final(t).ops@ == old(t).ops@.push(HwOp::PhyPllMiscClear),
    {
        self.pll_misc = false;
        t.record(HwOp::PhyPllMiscClear);
    }

    /// Sets the PLL power and USB clock-output enable bits.
    pub fn pll_power_on(&mut self, t: &mut HwTrace)
        ensures
            *final(self) == (UsbHsPhy { pll_power: true, pll_en_usb_clks: true, ..*old(self) }),
            final(t).ops@ == old(t).ops@.push(HwOp::PhyPllPowerOn),
    {
        self.pll_power = true;
        self.pll_en_usb_clks = true;
        t.record(HwOp::PhyPllPowerOn);
    }

    /// Opens the PHY clock gate, with automatic re-gating on wake configured
    /// and automatic power-down clearing off.
    pub fn open_clock_gate(&mut self, t: &mut HwTrace)
        ensures
            *final(self) == (UsbHsPhy {
                ctrl_clkgate: false,
                ctrl_enautoclr_clkgate: true,
                ctrl_enautoclr_phy_pwd: false,
                ..*old(self)
            }),
            final(t).ops@ == old(t).ops@.push(HwOp::PhyClockGateOpen),
    {
        self.ctrl_clkgate = false;
        self.ctrl_enautoclr_clkgate = true;
        self.ctrl_enautoclr_phy_pwd = false;
        t.record(HwOp::PhyClockGateOpen);
    }

    /// Writes zero to the power-down register, energizing all PHY sub-blocks.
    pub fn power_all_on(&mut self, t: &mut HwTrace)
        ensures
            *final(self) == (UsbHsPhy { pwd: 0, ..*old(self) }),
            final(t).ops@ == old(t).ops@.push(HwOp::PhyPowerAllOn),
    {
        self.pwd = 0;
        t.record(HwOp::PhyPowerAllOn);
    }

    /// Force-powers-down the high-speed transmit sub-block (bit 12 of the
    /// power-down register), coercing the link into full-speed-only
    /// operation.
    pub fn tx_power_down(&mut self, t: &mut HwTrace)
        ensures
            *final(self) == (UsbHsPhy { pwd: old(self).pwd | 0x1000, ..*old(self) }),
            final(t).ops@ == old(t).ops@.push(HwOp::PhyTxPowerDown),
    {
        self.pwd = self.pwd | 0x1000;
        t.record(HwOp::PhyTxPowerDown);
    }
}

} // verus!
