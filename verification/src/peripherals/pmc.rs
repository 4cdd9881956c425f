//! The power-management controller (PMC), modeled as the set of power
//! domains the USB drivers switch: one domain per register block, plus the
//! 32 MHz crystal oscillator and its regulator.

use vstd::prelude::*;

use crate::registers::RegBlock;
use crate::trace::{HwBlock, HwOp, HwTrace};

verus! {

/// The PMC's power switches, one flag per domain; `true` means powered.
#[derive(Clone, Copy, Debug, PartialEq, Eq, Structural)]
pub struct Pmc {
    pub usb_fs_dev_powered: bool,
    pub usb_fs_host_powered: bool,
    pub usb_hs_dev_powered: bool,
    pub usb_hs_host_powered: bool,
    pub usb_hs_phy_powered: bool,
    pub xtal32m_powered: bool,
    pub ldo_xo32m_powered: bool,
}

impl Pmc {
    /// `self` with the power domain of block `b` switched to `on`.
    pub open spec fn with_power(self, b: HwBlock, on: bool) -> Pmc {
        match b {
            HwBlock::UsbFsDev => Pmc { usb_fs_dev_powered: on, ..self },
            HwBlock::UsbFsHost => Pmc { usb_fs_host_powered: on, ..self },
            HwBlock::UsbHsDev => Pmc { usb_hs_dev_powered: on, ..self },
            HwBlock::UsbHsHost => Pmc { usb_hs_host_powered: on, ..self },
            HwBlock::UsbHsPhy => Pmc { usb_hs_phy_powered: on, ..self },
        }
    }

    /// Whether the power domain of block `b` is powered.
    pub open spec fn powered(self, b: HwBlock) -> bool {
        match b {
            HwBlock::UsbFsDev => self.usb_fs_dev_powered,
            HwBlock::UsbFsHost => self.usb_fs_host_powered,
            HwBlock::UsbHsDev => self.usb_hs_dev_powered,
            HwBlock::UsbHsHost => self.usb_hs_host_powered,
            HwBlock::UsbHsPhy => self.usb_hs_phy_powered,
        }
    }

    /// Switches on the power domain of the given register block.  Taking the
    /// block `&mut` keeps the caller the sole user of the hardware while its
    /// power state changes; its registers are untouched.
    pub fn power_on<B: RegBlock>(&mut self, block: &mut B, t: &mut HwTrace)
        ensures
            *final(self) == old(self).with_power(B::id(), true),
            *final(block) == *old(block),
            final(t).ops@ == old(t).ops@.push(HwOp::PowerOn { block: B::id() }),
    {
        let b = B::block_id();
        match b {
            HwBlock::UsbFsDev => self.usb_fs_dev_powered = true,
            HwBlock::UsbFsHost => self.usb_fs_host_powered = true,
            HwBlock::UsbHsDev => self.usb_hs_dev_powered = true,
            HwBlock::UsbHsHost => self.usb_hs_host_powered = true,
            HwBlock::UsbHsPhy => self.usb_hs_phy_powered = true,
        }
        t.record(HwOp::PowerOn { block: b });
    }

    /// Switches off the power domain of the given register block.
    pub fn power_off<B: RegBlock>(&mut self, block: &mut B, t: &mut HwTrace)
        ensures
            *final(self) == old(self).with_power(B::id(), false),
            *final(block) == *old(block),
            final(t).ops@ == old(t).ops@.push(HwOp::PowerOff { block: B::id() }),
    {
        let b = B::block_id();
        match b {
            HwBlock::UsbFsDev => self.usb_fs_dev_powered = false,
            HwBlock::UsbFsHost => self.usb_fs_host_powered = false,
            HwBlock::UsbHsDev => self.usb_hs_dev_powered = false,
            HwBlock::UsbHsHost => self.usb_hs_host_powered = false,
            HwBlock::UsbHsPhy => self.usb_hs_phy_powered = false,
        }
        t.record(HwOp::PowerOff { block: b });
    }

    /// Powers on the 32 MHz crystal oscillator.
    pub fn power_on_xtal32m(&mut self, t: &mut HwTrace)
        ensures
            *final(self) == (Pmc { xtal32m_powered: true, ..*old(self) }),
            final(t).ops@ == old(t).ops@.push(HwOp::Xtal32mPowerOn),
    {
        self.xtal32m_powered = true;
        t.record(HwOp::Xtal32mPowerOn);
    }

    /// Powers off the 32 MHz crystal oscillator.
    pub fn power_off_xtal32m(&mut self, t: &mut HwTrace)
        ensures
            *final(self) == (Pmc { xtal32m_powered: false, ..*old(self) }),
            final(t).ops@ == old(t).ops@.push(HwOp::Xtal32mPowerOff),
    {
        self.xtal32m_powered = false;
        t.record(HwOp::Xtal32mPowerOff);
    }

    /// Powers on the regulator of the 32 MHz crystal oscillator.
    pub fn power_on_ldo_xo32m(&mut self, t: &mut HwTrace)
        ensures
            *final(self) == (Pmc { ldo_xo32m_powered: true, ..*old(self) }),
            final(t).ops@ == old(t).ops@.push(HwOp::LdoXo32mPowerOn),
    {
        self.ldo_xo32m_powered = true;
        t.record(HwOp::LdoXo32mPowerOn);
    }

    /// Powers off the regulator of the 32 MHz crystal oscillator.
    pub fn power_off_ldo_xo32m(&mut self, t: &mut HwTrace)
        ensures
            *final(self) == (Pmc { ldo_xo32m_powered: false, ..*old(self) }),
            final(t).ops@ == old(t).ops@.push(HwOp::LdoXo32mPowerOff),
    {
        self.ldo_xo32m_powered = false;
        t.record(HwOp::LdoXo32mPowerOff);
    }
}

} // verus!
