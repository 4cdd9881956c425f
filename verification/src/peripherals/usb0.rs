//! The full-speed USB controller (USB0).
//!
//! A [`Usb0`] handle owns the controller's two register blocks and carries
//! its lifecycle state and operating mode in its type.  The enable transition
//! executes the full-speed hardware sequencing protocol; its contract states
//! the exact ordered operations performed ([`usb0_enable_ops`]), the
//! resulting collaborator state, and the registers of the returned handle.

use vstd::prelude::*;

use crate::peripherals::anactrl::Anactrl;
use crate::peripherals::pmc::Pmc;
use crate::peripherals::syscon::{Syscon, USB0CLKSEL_FRO_96MHZ};
use crate::registers::{UsbFsDev, UsbFsHost};
use crate::trace::{HwBlock, HwOp, HwTrace};
use crate::traits::usb::{Usb, UsbPeripheral};
use crate::typestates::init_state;
use crate::typestates::usb0_mode;
use crate::typestates::ClocksSupportUsbfsToken;

verus! {

/// Exclusive ownership of the full-speed USB controller: its device-mode
/// register block and its host-mode register block, tagged with the current
/// lifecycle state and operating mode.  The tags change only through the
/// transition methods, each of which consumes the handle and returns one of
/// the new type.
pub struct Usb0<State: init_state::InitState = init_state::Unknown, Mode: usb0_mode::Usb0Mode = usb0_mode::Unknown> {
    pub(crate) raw_fsd: UsbFsDev,
    pub(crate) raw_fsh: UsbFsHost,
    _state: State,
    _mode: Mode,
}

/// A full-speed controller that is enabled and wired as a USB device.
pub type EnabledUsbFsDevice = Usb0<init_state::Enabled, usb0_mode::Device>;

/// A full-speed controller that is enabled and wired as a USB host.  No
/// transition produces this type: the host-mode enable path is an explicit
/// gap in the current surface.
pub type EnabledUsbFsHost = Usb0<init_state::Enabled, usb0_mode::Host>;

impl Usb<init_state::Enabled> for EnabledUsbFsDevice {
    const USB: UsbPeripheral = UsbPeripheral::USB0;
}

impl<State: init_state::InitState, Mode: usb0_mode::Usb0Mode> Usb0<State, Mode> {
    /// The device-mode register block this handle owns.
    pub closed spec fn fs_dev(self) -> UsbFsDev {
        self.raw_fsd
    }

    /// The host-mode register block this handle owns.
    pub closed spec fn fs_host(self) -> UsbFsHost {
        self.raw_fsh
    }

    /// Releases ownership of the underlying register blocks, discarding all
    /// typestate.  The raw blocks can be re-wrapped into a fresh handle in
    /// the `Unknown` state, or handed to a different driver.
    pub fn release(self) -> (raw: (UsbFsDev, UsbFsHost))
        ensures
            raw.0 == self.fs_dev(),
            raw.1 == self.fs_host(),
    {
        (self.raw_fsd, self.raw_fsh)
    }
}

impl Usb0 {
    /// Wraps raw ownership of the controller's register blocks into a handle
    /// in the `Unknown` lifecycle state and `Unknown` mode.
    pub fn new(raw_fsd: UsbFsDev, raw_fsh: UsbFsHost) -> (usb: Usb0)
        ensures
            usb.fs_dev() == raw_fsd,
            usb.fs_host() == raw_fsh,
    {
        Usb0 {
            raw_fsd,
            raw_fsh,
            _state: init_state::Unknown,
            _mode: usb0_mode::Unknown,
        }
    }
}

impl From<(UsbFsDev, UsbFsHost)> for Usb0 {
    /// Equivalent to `Usb0::new` on the two blocks.
    fn from(raw: (UsbFsDev, UsbFsHost)) -> (usb: Self)
        ensures
            usb.fs_dev() == raw.0,
            usb.fs_host() == raw.1,
    {
        Usb0 {
            raw_fsd: raw.0,
            raw_fsh: raw.1,
            _state: init_state::Unknown,
            _mode: usb0_mode::Unknown,
        }
    }
}

impl vstd::std_specs::convert::FromSpecImpl<(UsbFsDev, UsbFsHost)> for Usb0 {
    open spec fn obeys_from_spec() -> bool {
        true
    }

    closed spec fn from_spec(raw: (UsbFsDev, UsbFsHost)) -> Self {
        Usb0 {
            raw_fsd: raw.0,
            raw_fsh: raw.1,
            _state: init_state::Unknown,
            _mode: usb0_mode::Unknown,
        }
    }
}

/// The exact ordered hardware operations of the full-speed enable protocol.
///
/// The order is a correctness contract, not a style choice: setting the
/// port-mode "device enable" bit before the divider change of the first four
/// steps has settled can corrupt the debug interface, and the host-mode
/// clock gate is opened only to reach that shared register and closed again
/// right after.
pub open spec fn usb0_enable_ops() -> Seq<HwOp> {
    seq![
        HwOp::Usb0ClkDivWrite { div: 1 },
        HwOp::Usb0ClkDivRun,
        HwOp::Usb0ClkSelWrite { sel: USB0CLKSEL_FRO_96MHZ },
        HwOp::Usb0ClkDivSettled,
        HwOp::PowerOn { block: HwBlock::UsbFsDev },
        HwOp::Reset { block: HwBlock::UsbFsDev },
        HwOp::ClockEnable { block: HwBlock::UsbFsDev },
        HwOp::ClockEnable { block: HwBlock::UsbFsHost },
        HwOp::PortModeDeviceEnable { block: HwBlock::UsbFsHost },
        HwOp::ClockDisable { block: HwBlock::UsbFsHost },
        HwOp::Usb1SramClockEnable,
        HwOp::SofLockRequest,
        HwOp::SofLockSettled,
    ]
}

/// The SYSCON state the full-speed enable protocol leaves behind: divider set
/// to divide-by-2 and running, the 96 MHz FRO selected, no change in flight,
/// the device clock gate open, the host clock gate closed again, and the
/// shared USB1 SRAM gate open.
pub open spec fn usb0_enable_syscon(pre: Syscon) -> Syscon {
    Syscon {
        usb0clkdiv_div: 1,
        usb0clkdiv_halted: false,
        usb0clksel: USB0CLKSEL_FRO_96MHZ,
        usb0clkdiv_pending: 0,
        usb_fs_dev_clock: true,
        usb_fs_host_clock: false,
        usb1_ram_clock: true,
        ..pre
    }
}

/// The ANACTRL state the full-speed enable protocol leaves behind: the
/// 192 MHz FRO locked to USB start-of-frame packets, no change in flight.
pub open spec fn usb0_enable_anactrl(pre: Anactrl) -> Anactrl {
    Anactrl {
        usbclkadj: true,
        usbmodchg_pending: 0,
        ..pre
    }
}

/// The exact ordered hardware operations of the full-speed disable protocol.
/// The divider configuration, SRAM clock gate and start-of-frame lock set up
/// on enable are not reversed — an asymmetry of the protocol, reproduced as
/// specified.
pub open spec fn usb0_disable_ops() -> Seq<HwOp> {
    seq![
        HwOp::PowerOff { block: HwBlock::UsbFsDev },
        HwOp::ClockDisable { block: HwBlock::UsbFsDev },
    ]
}

impl Usb0<init_state::Unknown, usb0_mode::Unknown> {
    /// Enables the full-speed controller in device mode, executing the
    /// full-speed hardware sequencing protocol: program the input clock
    /// divider to divide the 96 MHz FRO down to 48 MHz, release it from halt,
    /// select the source, busy-wait until the divider change settles, power
    /// on the PHY, reset and clock the device block, briefly clock the host
    /// block to set the shared port-mode "device enable" bit, open the USB1
    /// SRAM gate, and lock the 192 MHz FRO to start-of-frame packets.
    ///
    /// The clock token proves the 96 MHz path was validated and frozen; the
    /// transition cannot be expressed without one.
    pub fn enabled_as_device(
        self,
        anactrl: &mut Anactrl,
        pmc: &mut Pmc,
        syscon: &mut Syscon,
        trace: &mut HwTrace,
        _clocks_token: ClocksSupportUsbfsToken,
    ) -> (usb: EnabledUsbFsDevice)
        ensures
            final(trace).ops@ == old(trace).ops@ + usb0_enable_ops(),
            *final(syscon) == usb0_enable_syscon(*old(syscon)),
            *final(pmc) == old(pmc).with_power(HwBlock::UsbFsDev, true),
            *final(anactrl) == usb0_enable_anactrl(*old(anactrl)),
            usb.fs_dev() == self.fs_dev(),
            usb.fs_host() == (UsbFsHost { portmode_dev_enable: true }),
    {
        let mut raw_fsd = self.raw_fsd;
        let mut raw_fsh = self.raw_fsh;

        // Configure the peripheral input clock: 96 MHz FRO divided by 2 =
        // 48 MHz (the divisor field holds the divisor minus one), then wait
        // for the hardware to take the change.
        syscon.set_usb0clkdiv_div(1, trace);
        syscon.run_usb0clkdiv(trace);
        syscon.select_usb0clk_fro96mhz(trace);
        syscon.wait_usb0clkdiv(trace);

        // Power on the full-speed PHY.
        pmc.power_on(&mut raw_fsd, trace);

        // Reset the device block and open its clock gate.
        syscon.reset(&mut raw_fsd, trace);
        syscon.enable_clock(&mut raw_fsd, trace);

        // Switch the port from its default host wiring to device wiring: the
        // port-mode register lives in the host block, so its clock gate is
        // opened just long enough to write the bit.  The divider change above
        // must have settled first.
        syscon.enable_clock(&mut raw_fsh, trace);
        raw_fsh.set_portmode_device(trace);
        syscon.disable_clock(&mut raw_fsh, trace);

        // Open the shared USB1 SRAM clock gate used by the USB subsystem.
        syscon.enable_usb1_ram_clock(trace);

        // Lock the 192 MHz FRO's phase to USB start-of-frame packets and wait
        // for the mode change to settle.
        anactrl.request_sof_lock(trace);
        anactrl.wait_sof_lock(trace);

        proof {
            assert(trace.ops@ =~= old(trace).ops@ + usb0_enable_ops());
        }

        Usb0 {
            raw_fsd,
            raw_fsh,
            _state: init_state::Enabled(()),
            _mode: usb0_mode::Device,
        }
    }
}

/// The four status fields the full-speed controller's INFO register reports.
#[derive(Clone, Copy, Debug, PartialEq, Eq, Structural)]
pub struct UsbFsDevInfo {
    pub maj_rev: u8,
    pub min_rev: u8,
    pub err_code: u8,
    pub frame_nr: u16,
}

impl EnabledUsbFsDevice {
    /// Reads the INFO status register: hardware revision, error code and
    /// current frame number.  A pure read — neither the registers nor the
    /// lifecycle state change.
    pub fn info(&self) -> (info: UsbFsDevInfo)
        ensures
            info == (UsbFsDevInfo {
                maj_rev: self.fs_dev().maj_rev,
                min_rev: self.fs_dev().min_rev,
                err_code: self.fs_dev().err_code,
                frame_nr: self.fs_dev().frame_nr,
            }),
    {
        UsbFsDevInfo {
            maj_rev: self.raw_fsd.maj_rev,
            min_rev: self.raw_fsd.min_rev,
            err_code: self.raw_fsd.err_code,
            frame_nr: self.raw_fsd.frame_nr,
        }
    }

    /// Disables the full-speed controller: power off the PHY, close the
    /// device clock gate.  Only an `Enabled`, device-mode handle offers this
    /// transition; the resulting `Disabled` handle offers no further
    /// operation except releasing the raw blocks.
    pub fn disabled(
        self,
        pmc: &mut Pmc,
        syscon: &mut Syscon,
        trace: &mut HwTrace,
    ) -> (usb: Usb0<init_state::Disabled, usb0_mode::Device>)
        ensures
            final(trace).ops@ == old(trace).ops@ + usb0_disable_ops(),
            *final(pmc) == old(pmc).with_power(HwBlock::UsbFsDev, false),
            *final(syscon) == old(syscon).with_clock(HwBlock::UsbFsDev, false),
            usb.fs_dev() == self.fs_dev(),
            usb.fs_host() == self.fs_host(),
    {
        let mut raw_fsd = self.raw_fsd;
        let raw_fsh = self.raw_fsh;

        pmc.power_off(&mut raw_fsd, trace);
        syscon.disable_clock(&mut raw_fsd, trace);

        proof {
            assert(trace.ops@ =~= old(trace).ops@ + usb0_disable_ops());
        }

        Usb0 {
            raw_fsd,
            raw_fsh,
            _state: init_state::Disabled,
            _mode: usb0_mode::Device,
        }
    }
}

/// Law: within the full-speed enable protocol, the busy-wait on the clock
/// divider settles before the PHY is powered on.  For any trace `post` left
/// by the enable transition on a prior trace `pre`, every PHY power-on it
/// appended is preceded, within the appended part, by the divider-settled
/// operation.
pub proof fn lemma_usb0_divider_settles_before_phy_power(pre: Seq<HwOp>, post: Seq<HwOp>)
    requires
        post == pre + usb0_enable_ops(),
    ensures
        forall|j: int|
            pre.len() <= j < post.len()
                && post[j] == (HwOp::PowerOn { block: HwBlock::UsbFsDev })
                ==> exists|i: int|
                    pre.len() <= i < j && post[i] == HwOp::Usb0ClkDivSettled,
{
    assert forall|j: int|
        pre.len() <= j < post.len()
            && post[j] == (HwOp::PowerOn { block: HwBlock::UsbFsDev })
            implies exists|i: int|
                pre.len() <= i < j && post[i] == HwOp::Usb0ClkDivSettled by {
        let k = j - pre.len();
        assert(post[j] == usb0_enable_ops()[k]);
        assert(k == 4) by {
            assert(usb0_enable_ops()[0] != (HwOp::PowerOn { block: HwBlock::UsbFsDev }));
            assert(usb0_enable_ops()[1] != (HwOp::PowerOn { block: HwBlock::UsbFsDev }));
            assert(usb0_enable_ops()[2] != (HwOp::PowerOn { block: HwBlock::UsbFsDev }));
            assert(usb0_enable_ops()[3] != (HwOp::PowerOn { block: HwBlock::UsbFsDev }));
            assert(usb0_enable_ops()[5] != (HwOp::PowerOn { block: HwBlock::UsbFsDev }));
            assert(usb0_enable_ops()[6] != (HwOp::PowerOn { block: HwBlock::UsbFsDev }));
            assert(usb0_enable_ops()[7] != (HwOp::PowerOn { block: HwBlock::UsbFsDev }));
            assert(usb0_enable_ops()[8] != (HwOp::PowerOn { block: HwBlock::UsbFsDev }));
            assert(usb0_enable_ops()[9] != (HwOp::PowerOn { block: HwBlock::UsbFsDev }));
            assert(usb0_enable_ops()[10] != (HwOp::PowerOn { block: HwBlock::UsbFsDev }));
            assert(usb0_enable_ops()[11] != (HwOp::PowerOn { block: HwBlock::UsbFsDev }));
            assert(usb0_enable_ops()[12] != (HwOp::PowerOn { block: HwBlock::UsbFsDev }));
        }
        assert(post[pre.len() as int + 3] == HwOp::Usb0ClkDivSettled);
    }
}

} // verus!
