//! The high-speed USB controller (USB1).
//!
//! A [`Usb1`] handle owns three register blocks — the device-mode and
//! host-mode controllers plus the analog PHY — and carries its lifecycle
//! state and operating mode in its type.  The enable transition executes the
//! high-speed hardware sequencing protocol, which shares the full-speed
//! protocol's shape but programs a different register set and needs two
//! timed PHY stabilization delays instead of a hardware-flag poll alone.

use vstd::prelude::*;

use crate::drivers::timer::Timer;
use crate::peripherals::anactrl::Anactrl;
use crate::peripherals::pmc::Pmc;
use crate::peripherals::syscon::Syscon;
use crate::registers::{UsbHsDev, UsbHsHost, UsbHsPhy};
use crate::trace::{HwBlock, HwOp, HwTrace};
use crate::traits::usb::{Usb, UsbPeripheral};
use crate::typestates::init_state;
use crate::typestates::usb1_mode;
use crate::typestates::ClocksSupportUsbhsToken;

verus! {

/// The PHY PLL divisor selector for a 16 MHz multiple of the 32 MHz crystal.
pub const USBPHY_PLL_DIV_SEL_16MHZ: u8 = 6;

/// Exclusive ownership of the high-speed USB controller: its analog PHY,
/// device-mode and host-mode register blocks, tagged with the current
/// lifecycle state and operating mode.  The tags change only through the
/// transition methods, each of which consumes the handle and returns one of
/// the new type.
pub struct Usb1<State: init_state::InitState = init_state::Unknown, Mode: usb1_mode::Usb1Mode = usb1_mode::Unknown> {
    pub(crate) raw_phy: UsbHsPhy,
    pub(crate) raw_hsd: UsbHsDev,
    pub(crate) raw_hsh: UsbHsHost,
    _state: State,
    _mode: Mode,
}

/// A high-speed controller that is enabled and wired as a USB device.
pub type EnabledUsbDevice = Usb1<init_state::Enabled, usb1_mode::Device>;

/// A high-speed controller that is enabled and wired as a USB host.  No
/// transition produces this type: the host-mode enable path is an explicit
/// gap in the current surface.
pub type EnabledUsbHost = Usb1<init_state::Enabled, usb1_mode::Host>;

impl Usb<init_state::Enabled> for EnabledUsbDevice {
    const USB: UsbPeripheral = UsbPeripheral::USB1;
}

impl<State: init_state::InitState, Mode: usb1_mode::Usb1Mode> Usb1<State, Mode> {
    /// The analog PHY register block this handle owns.
    pub closed spec fn hs_phy(self) -> UsbHsPhy {
        self.raw_phy
    }

    /// The device-mode register block this handle owns.
    pub closed spec fn hs_dev(self) -> UsbHsDev {
        self.raw_hsd
    }

    /// The host-mode register block this handle owns.
    pub closed spec fn hs_host(self) -> UsbHsHost {
        self.raw_hsh
    }

    /// Releases ownership of the underlying register blocks, discarding all
    /// typestate.  The raw blocks can be re-wrapped into a fresh handle in
    /// the `Unknown` state, or handed to a different driver.
    pub fn release(self) -> (raw: (UsbHsPhy, UsbHsDev, UsbHsHost))
        ensures
            raw.0 == self.hs_phy(),
            raw.1 == self.hs_dev(),
            raw.2 == self.hs_host(),
    {
        (self.raw_phy, self.raw_hsd, self.raw_hsh)
    }

    /// Lends the handle to `func` for the duration of one call; the handle is
    /// unchanged and whatever `func` guarantees of the loan holds afterwards.
    pub fn borrow<F: Fn(&Self)>(&self, func: F)
        requires
            func.requires((self,)),
        ensures
            func.ensures((self,), ()),
    {
        func(self);
    }
}

impl Usb1 {
    /// Wraps raw ownership of the controller's register blocks into a handle
    /// in the `Unknown` lifecycle state and `Unknown` mode.
    pub fn new(raw_phy: UsbHsPhy, raw_hsd: UsbHsDev, raw_hsh: UsbHsHost) -> (usb: Usb1)
        ensures
            usb.hs_phy() == raw_phy,
            usb.hs_dev() == raw_hsd,
            usb.hs_host() == raw_hsh,
    {
        Usb1 {
            raw_phy,
            raw_hsd,
            raw_hsh,
            _state: init_state::Unknown,
            _mode: usb1_mode::Unknown,
        }
    }
}

impl From<(UsbHsPhy, UsbHsDev, UsbHsHost)> for Usb1 {
    /// Equivalent to `Usb1::new` on the three blocks.
    fn from(raw: (UsbHsPhy, UsbHsDev, UsbHsHost)) -> (usb: Self)
        ensures
            usb.hs_phy() == raw.0,
            usb.hs_dev() == raw.1,
            usb.hs_host() == raw.2,
    {
        Usb1 {
            raw_phy: raw.0,
            raw_hsd: raw.1,
            raw_hsh: raw.2,
            _state: init_state::Unknown,
            _mode: usb1_mode::Unknown,
        }
    }
}

impl vstd::std_specs::convert::FromSpecImpl<(UsbHsPhy, UsbHsDev, UsbHsHost)> for Usb1 {
    open spec fn obeys_from_spec() -> bool {
        true
    }

    closed spec fn from_spec(raw: (UsbHsPhy, UsbHsDev, UsbHsHost)) -> Self {
        Usb1 {
            raw_phy: raw.0,
            raw_hsd: raw.1,
            raw_hsh: raw.2,
            _state: init_state::Unknown,
            _mode: usb1_mode::Unknown,
        }
    }
}

/// The exact ordered hardware operations of the high-speed enable protocol.
pub open spec fn usb1_enable_ops() -> Seq<HwOp> {
    seq![
        HwOp::Reset { block: HwBlock::UsbHsHost },
        HwOp::Reset { block: HwBlock::UsbHsDev },
        HwOp::Reset { block: HwBlock::UsbHsPhy },
        HwOp::ClockEnable { block: HwBlock::UsbHsHost },
        HwOp::PortModeDeviceEnable { block: HwBlock::UsbHsHost },
        HwOp::ClockDisable { block: HwBlock::UsbHsHost },
        HwOp::Xtal32mPowerOn,
        HwOp::LdoXo32mPowerOn,
        HwOp::PllUsbOutEnable,
        HwOp::PowerOn { block: HwBlock::UsbHsPhy },
        HwOp::TimerStart { us: 5000 },
        HwOp::TimerElapsed,
        HwOp::ClockEnable { block: HwBlock::UsbHsPhy },
        HwOp::PhyCtrlInit,
        HwOp::PhyPllConfig { div_sel: USBPHY_PLL_DIV_SEL_16MHZ },
        HwOp::PhyPllMiscClear,
        HwOp::TimerStart { us: 15 },
        HwOp::TimerElapsed,
        HwOp::PhyPllPowerOn,
        HwOp::PhyClockGateOpen,
        HwOp::PhyPowerAllOn,
        HwOp::ClockEnable { block: HwBlock::UsbHsDev },
    ]
}

/// The PHY register contents the high-speed enable protocol leaves behind,
/// independent of the contents before the call: the protocol resets the block
/// and then programs every modeled field.
pub open spec fn usb1_enabled_phy() -> UsbHsPhy {
    UsbHsPhy {
        ctrl_sftrst: false,
        ctrl_clkgate: false,
        ctrl_enautoclr_clkgate: true,
        ctrl_enautoclr_phy_pwd: false,
        pll_div_sel: USBPHY_PLL_DIV_SEL_16MHZ,
        pll_reg_enable: true,
        pll_misc: false,
        pll_power: true,
        pll_en_usb_clks: true,
        pwd: 0,
    }
}

/// The SYSCON state the high-speed enable protocol leaves behind: device and
/// PHY clock gates open, the host clock gate closed again.
pub open spec fn usb1_enable_syscon(pre: Syscon) -> Syscon {
    Syscon {
        usb_hs_dev_clock: true,
        usb_hs_host_clock: false,
        usb_hs_phy_clock: true,
        ..pre
    }
}

/// The PMC state the high-speed enable protocol leaves behind: crystal,
/// regulator and PHY powered on.
pub open spec fn usb1_enable_pmc(pre: Pmc) -> Pmc {
    Pmc {
        xtal32m_powered: true,
        ldo_xo32m_powered: true,
        usb_hs_phy_powered: true,
        ..pre
    }
}

/// The exact ordered hardware operations of the high-speed disable protocol.
/// The host clock gate state and the PLL output routing set up on enable are
/// not reversed — the same asymmetry as on the full-speed controller,
/// reproduced as specified.
pub open spec fn usb1_disable_ops() -> Seq<HwOp> {
    seq![
        HwOp::ClockDisable { block: HwBlock::UsbHsDev },
        HwOp::ClockDisable { block: HwBlock::UsbHsPhy },
        HwOp::PowerOff { block: HwBlock::UsbHsPhy },
        HwOp::Xtal32mPowerOff,
        HwOp::LdoXo32mPowerOff,
    ]
}

impl Usb1<init_state::Unknown, usb1_mode::Unknown> {
    /// Enables the high-speed controller in device mode, executing the
    /// high-speed hardware sequencing protocol: reset all three blocks,
    /// briefly clock the host block to set the shared port-mode "device
    /// enable" bit, power the 32 MHz crystal and its regulator, route the
    /// crystal into the USB PLL, power on the PHY and give it a long fixed
    /// stabilization delay, clear the PHY soft reset, program the PLL, wait a
    /// second shorter delay for the PLL regulator, power the PLL, open the
    /// PHY clock gate, energize all PHY sub-blocks, and finally open the
    /// device controller's clock gate.
    ///
    /// The clock token proves the high-speed clock path was validated and
    /// frozen; the transition cannot be expressed without one.
    pub fn enabled_as_device(
        self,
        anactrl: &mut Anactrl,
        pmc: &mut Pmc,
        syscon: &mut Syscon,
        timer: &mut Timer,
        trace: &mut HwTrace,
        _clocks_token: ClocksSupportUsbhsToken,
    ) -> (usb: EnabledUsbDevice)
        ensures
            final(trace).ops@ == old(trace).ops@ + usb1_enable_ops(),
            *final(syscon) == usb1_enable_syscon(*old(syscon)),
            *final(pmc) == usb1_enable_pmc(*old(pmc)),
            *final(anactrl) == (Anactrl { xo32m_pll_usb_out: true, ..*old(anactrl) }),
            *final(timer) == (Timer { remaining_us: 0 }),
            usb.hs_phy() == usb1_enabled_phy(),
            usb.hs_dev() == self.hs_dev(),
            usb.hs_host() == (UsbHsHost { portmode_dev_enable: true }),
    {
        let mut raw_phy = self.raw_phy;
        let mut raw_hsd = self.raw_hsd;
        let mut raw_hsh = self.raw_hsh;

        // Reset all three blocks.
        syscon.reset(&mut raw_hsh, trace);
        syscon.reset(&mut raw_hsd, trace);
        syscon.reset(&mut raw_phy, trace);

        // Briefly clock the host controller to gain device control of the
        // USB1 port through the shared port-mode register.
        syscon.enable_clock(&mut raw_hsh, trace);
        raw_hsh.set_portmode_device(trace);
        syscon.disable_clock(&mut raw_hsh, trace);

        // Power the 32 MHz crystal for the high-speed PHY and connect it to
        // the USB PLL.
        pmc.power_on_xtal32m(trace);
        pmc.power_on_ldo_xo32m(trace);
        anactrl.enable_pll_usb_out(trace);

        pmc.power_on(&mut raw_phy, trace);

        // Long fixed delay for the PHY to be ready.
        timer.start(5000, trace);
        timer.wait(trace);

        syscon.enable_clock(&mut raw_phy, trace);

        // Initial configuration of the PHY control registers: clear the soft
        // reset, program the PLL for the 16 MHz-multiple crystal, and clear
        // the undocumented bit the vendor reference code requires.
        raw_phy.ctrl_init(trace);
        raw_phy.pll_configure(USBPHY_PLL_DIV_SEL_16MHZ, trace);
        raw_phy.pll_misc_clear(trace);

        // The PLL regulator needs a short fixed delay to stabilize.
        timer.start(15, trace);
        timer.wait(trace);

        raw_phy.pll_power_on(trace);
        raw_phy.open_clock_gate(trace);

        // Energize everything in the PHY.
        raw_phy.power_all_on(trace);

        // Open the device controller's clock gate.
        syscon.enable_clock(&mut raw_hsd, trace);

        proof {
            assert(trace.ops@ =~= old(trace).ops@ + usb1_enable_ops());
        }

        Usb1 {
            raw_phy,
            raw_hsd,
            raw_hsh,
            _state: init_state::Enabled(()),
            _mode: usb1_mode::Device,
        }
    }
}

/// The four status fields the high-speed controller's INFO register reports.
#[derive(Clone, Copy, Debug, PartialEq, Eq, Structural)]
pub struct Usb1DevInfo {
    pub maj_rev: u8,
    pub min_rev: u8,
    pub err_code: u8,
    pub frame_nr: u16,
}

impl EnabledUsbDevice {
    /// Reads the INFO status register: hardware revision, error code and
    /// current frame number.  A pure read — neither the registers nor the
    /// lifecycle state change.
    pub fn info(&self) -> (info: Usb1DevInfo)
        ensures
            info == (Usb1DevInfo {
                maj_rev: self.hs_dev().maj_rev,
                min_rev: self.hs_dev().min_rev,
                err_code: self.hs_dev().err_code,
                frame_nr: self.hs_dev().frame_nr,
            }),
    {
        Usb1DevInfo {
            maj_rev: self.raw_hsd.maj_rev,
            min_rev: self.raw_hsd.min_rev,
            err_code: self.raw_hsd.err_code,
            frame_nr: self.raw_hsd.frame_nr,
        }
    }

    /// Force-powers-down the high-speed transmit sub-block of the PHY,
    /// coercing the link into full-speed-only operation — a documented
    /// alternative to the corresponding command-register bit, offered for
    /// application choice.
    pub fn disable_high_speed(&mut self, trace: &mut HwTrace)
        ensures
            final(self).hs_phy() == (UsbHsPhy { pwd: old(self).hs_phy().pwd | 0x1000, ..old(self).hs_phy() }),
            final(self).hs_dev() == old(self).hs_dev(),
            final(self).hs_host() == old(self).hs_host(),
            final(trace).ops@ == old(trace).ops@.push(HwOp::PhyTxPowerDown),
    {
        self.raw_phy.tx_power_down(trace);
    }

    /// Disables the high-speed controller: close the device and PHY clock
    /// gates, power off the PHY, then power off the crystal and its
    /// regulator.  Only an `Enabled`, device-mode handle offers this
    /// transition; the resulting `Disabled` handle offers no further
    /// operation except releasing the raw blocks.
    pub fn disabled(
        self,
        pmc: &mut Pmc,
        syscon: &mut Syscon,
        trace: &mut HwTrace,
    ) -> (usb: Usb1<init_state::Disabled, usb1_mode::Device>)
        ensures
            final(trace).ops@ == old(trace).ops@ + usb1_disable_ops(),
            *final(pmc) == (Pmc {
                usb_hs_phy_powered: false,
                xtal32m_powered: false,
                ldo_xo32m_powered: false,
                ..*old(pmc)
            }),
            *final(syscon) == (Syscon {
                usb_hs_dev_clock: false,
                usb_hs_phy_clock: false,
                ..*old(syscon)
            }),
            usb.hs_phy() == self.hs_phy(),
            usb.hs_dev() == self.hs_dev(),
            usb.hs_host() == self.hs_host(),
    {
        let mut raw_phy = self.raw_phy;
        let mut raw_hsd = self.raw_hsd;
        let raw_hsh = self.raw_hsh;

        syscon.disable_clock(&mut raw_hsd, trace);
        syscon.disable_clock(&mut raw_phy, trace);

        pmc.power_off(&mut raw_phy, trace);
        pmc.power_off_xtal32m(trace);
        pmc.power_off_ldo_xo32m(trace);

        proof {
            assert(trace.ops@ =~= old(trace).ops@ + usb1_disable_ops());
        }

        Usb1 {
            raw_phy,
            raw_hsd,
            raw_hsh,
            _state: init_state::Disabled,
            _mode: usb1_mode::Device,
        }
    }
}

} // verus!
