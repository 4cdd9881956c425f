//! End-to-end scenarios for the high-speed USB controller.

use lpc55_hal::clocks::Clocks;
use lpc55_hal::drivers::timer::Timer;
use lpc55_hal::peripherals::anactrl::Anactrl;
use lpc55_hal::peripherals::pmc::Pmc;
use lpc55_hal::peripherals::syscon::Syscon;
use lpc55_hal::peripherals::usb1::{EnabledUsbDevice, Usb1};
use lpc55_hal::registers::{UsbHsDev, UsbHsHost, UsbHsPhy};
use lpc55_hal::trace::{HwBlock, HwOp, HwTrace};
use lpc55_hal::typestates::main_clock::MainClock;

fn fresh_syscon() -> Syscon {
    Syscon {
        usb0clkdiv_div: 0,
        usb0clkdiv_halted: true,
        usb0clksel: 7,
        usb0clkdiv_pending: 0,
        usb0clkdiv_latency: 3,
        usb1_ram_clock: false,
        usb_fs_dev_clock: false,
        usb_fs_host_clock: false,
        usb_hs_dev_clock: false,
        usb_hs_host_clock: false,
        usb_hs_phy_clock: false,
    }
}

fn fresh_pmc() -> Pmc {
    Pmc {
        usb_fs_dev_powered: false,
        usb_fs_host_powered: false,
        usb_hs_dev_powered: false,
        usb_hs_host_powered: false,
        usb_hs_phy_powered: false,
        xtal32m_powered: false,
        ldo_xo32m_powered: false,
    }
}

fn fresh_anactrl() -> Anactrl {
    Anactrl {
        usbclkadj: false,
        usbmodchg_pending: 0,
        usbmodchg_latency: 2,
        xo32m_pll_usb_out: false,
    }
}

fn powered_down_phy() -> UsbHsPhy {
    UsbHsPhy {
        ctrl_sftrst: true,
        ctrl_clkgate: true,
        ctrl_enautoclr_clkgate: false,
        ctrl_enautoclr_phy_pwd: false,
        pll_div_sel: 0,
        pll_reg_enable: false,
        pll_misc: true,
        pll_power: false,
        pll_en_usb_clks: false,
        pwd: 0xffff_ffff,
    }
}

fn valid_clocks() -> Clocks {
    Clocks {
        main_clock: MainClock::Fro96Mhz,
        fro96mhz_on: true,
        xtal32m_present: true,
    }
}

fn enabled_device(
    pmc: &mut Pmc,
    syscon: &mut Syscon,
    anactrl: &mut Anactrl,
    timer: &mut Timer,
    trace: &mut HwTrace,
) -> EnabledUsbDevice {
    let phy = powered_down_phy();
    let hsd = UsbHsDev { maj_rev: 3, min_rev: 1, err_code: 0, frame_nr: 500 };
    let hsh = UsbHsHost { portmode_dev_enable: false };
    let usb = Usb1::new(phy, hsd, hsh);
    let token = valid_clocks().support_usbhs_token().unwrap();
    usb.enabled_as_device(anactrl, pmc, syscon, timer, trace, token)
}

#[test]
fn usbhs_token_issued_iff_crystal_present() {
    let good = valid_clocks();
    assert!(good.support_usbhs_token().is_some());

    let bad = Clocks {
        main_clock: MainClock::Fro96Mhz,
        fro96mhz_on: true,
        xtal32m_present: false,
    };
    assert!(bad.support_usbhs_token().is_none());
}

#[test]
fn hs_enable_performs_exact_sequence() {
    let mut syscon = fresh_syscon();
    let mut pmc = fresh_pmc();
    let mut anactrl = fresh_anactrl();
    let mut timer = Timer::new();
    let mut trace = HwTrace::new();

    let enabled = enabled_device(&mut pmc, &mut syscon, &mut anactrl, &mut timer, &mut trace);

    let expected = vec![
        HwOp::Reset { block: HwBlock::UsbHsHost },
        HwOp::Reset { block: HwBlock::UsbHsDev },
        HwOp::Reset { block: HwBlock::UsbHsPhy },
        HwOp::ClockEnable { block: HwBlock::UsbHsHost },
        HwOp::PortModeDeviceEnable { block: HwBlock::UsbHsHost },
        HwOp::ClockDisable { block: HwBlock::UsbHsHost },
        HwOp::Xtal32mPowerOn,
        HwOp::LdoXo32mPowerOn,
        HwOp::PllUsbOutEnable,
        HwOp::PowerOn { block: HwBlock::UsbHsPhy },
        HwOp::TimerStart { us: 5000 },
        HwOp::TimerElapsed,
        HwOp::ClockEnable { block: HwBlock::UsbHsPhy },
        HwOp::PhyCtrlInit,
        HwOp::PhyPllConfig { div_sel: 6 },
        HwOp::PhyPllMiscClear,
        HwOp::TimerStart { us: 15 },
        HwOp::TimerElapsed,
        HwOp::PhyPllPowerOn,
        HwOp::PhyClockGateOpen,
        HwOp::PhyPowerAllOn,
        HwOp::ClockEnable { block: HwBlock::UsbHsDev },
    ];
    assert_eq!(trace.ops, expected);

    assert!(syscon.usb_hs_dev_clock);
    assert!(!syscon.usb_hs_host_clock);
    assert!(syscon.usb_hs_phy_clock);
    assert!(pmc.usb_hs_phy_powered);
    assert!(pmc.xtal32m_powered);
    assert!(pmc.ldo_xo32m_powered);
    assert!(anactrl.xo32m_pll_usb_out);
    assert_eq!(timer.remaining_us, 0);

    let info = enabled.info();
    assert_eq!(info.maj_rev, 3);
    assert_eq!(info.min_rev, 1);
    assert_eq!(info.err_code, 0);
    assert_eq!(info.frame_nr, 500);
}

#[test]
fn hs_enable_delays_come_in_order() {
    let mut syscon = fresh_syscon();
    let mut pmc = fresh_pmc();
    let mut anactrl = fresh_anactrl();
    let mut timer = Timer::new();
    let mut trace = HwTrace::new();

    let _enabled = enabled_device(&mut pmc, &mut syscon, &mut anactrl, &mut timer, &mut trace);

    // The long PHY stabilization delay comes after the PHY power-on and
    // before the short PLL regulator delay.
    let power_on = trace
        .ops
        .iter()
        .position(|op| *op == HwOp::PowerOn { block: HwBlock::UsbHsPhy })
        .unwrap();
    let long_delay = trace
        .ops
        .iter()
        .position(|op| *op == HwOp::TimerStart { us: 5000 })
        .unwrap();
    let short_delay = trace
        .ops
        .iter()
        .position(|op| *op == HwOp::TimerStart { us: 15 })
        .unwrap();
    assert!(power_on < long_delay);
    assert!(long_delay < short_delay);
}

#[test]
fn hs_disable_high_speed_forces_full_speed() {
    let mut syscon = fresh_syscon();
    let mut pmc = fresh_pmc();
    let mut anactrl = fresh_anactrl();
    let mut timer = Timer::new();
    let mut trace = HwTrace::new();

    let mut enabled = enabled_device(&mut pmc, &mut syscon, &mut anactrl, &mut timer, &mut trace);
    let before = trace.len();

    enabled.disable_high_speed(&mut trace);

    assert_eq!(trace.len(), before + 1);
    assert_eq!(trace.op_at(before), HwOp::PhyTxPowerDown);

    // The controller stays enabled: the status registers are still readable.
    let info = enabled.info();
    assert_eq!(info.maj_rev, 3);
}

#[test]
fn hs_disable_powers_down_but_keeps_pll_routing() {
    let mut syscon = fresh_syscon();
    let mut pmc = fresh_pmc();
    let mut anactrl = fresh_anactrl();
    let mut timer = Timer::new();
    let mut trace = HwTrace::new();

    let enabled = enabled_device(&mut pmc, &mut syscon, &mut anactrl, &mut timer, &mut trace);
    let before = trace.len();

    let disabled = enabled.disabled(&mut pmc, &mut syscon, &mut trace);

    assert_eq!(trace.len(), before + 5);
    assert_eq!(trace.op_at(before), HwOp::ClockDisable { block: HwBlock::UsbHsDev });
    assert_eq!(trace.op_at(before + 1), HwOp::ClockDisable { block: HwBlock::UsbHsPhy });
    assert_eq!(trace.op_at(before + 2), HwOp::PowerOff { block: HwBlock::UsbHsPhy });
    assert_eq!(trace.op_at(before + 3), HwOp::Xtal32mPowerOff);
    assert_eq!(trace.op_at(before + 4), HwOp::LdoXo32mPowerOff);

    assert!(!syscon.usb_hs_dev_clock);
    assert!(!syscon.usb_hs_phy_clock);
    assert!(!pmc.usb_hs_phy_powered);
    assert!(!pmc.xtal32m_powered);
    assert!(!pmc.ldo_xo32m_powered);

    // The teardown is asymmetric: the host clock-gate state and the PLL
    // output routing set up on enable are not reversed.
    assert!(anactrl.xo32m_pll_usb_out);

    // Release hands back all three capabilities, the PHY included, so the
    // hardware can be re-owned.
    let (raw_phy, raw_hsd, raw_hsh) = disabled.release();
    assert_eq!(raw_phy.pwd, 0);
    assert_eq!(raw_hsd.frame_nr, 500);
    assert!(raw_hsh.portmode_dev_enable);
}

#[test]
fn hs_borrow_lends_the_handle() {
    let mut syscon = fresh_syscon();
    let mut pmc = fresh_pmc();
    let mut anactrl = fresh_anactrl();
    let mut timer = Timer::new();
    let mut trace = HwTrace::new();

    let enabled = enabled_device(&mut pmc, &mut syscon, &mut anactrl, &mut timer, &mut trace);
    enabled.borrow(|usb: &EnabledUsbDevice| {
        let info = usb.info();
        assert_eq!(info.maj_rev, 3);
    });
    // The handle is usable again after the loan ends.
    let info = enabled.info();
    assert_eq!(info.frame_nr, 500);
}

#[test]
fn timer_counts_down_to_zero() {
    let mut timer = Timer::new();
    assert_eq!(timer.remaining_us, 0);
    let mut trace = HwTrace::new();
    timer.start(42, &mut trace);
    assert_eq!(timer.remaining_us, 42);
    timer.wait(&mut trace);
    assert_eq!(timer.remaining_us, 0);
    assert_eq!(trace.ops, vec![HwOp::TimerStart { us: 42 }, HwOp::TimerElapsed]);
}

#[test]
fn hs_from_raw_triple() {
    let phy = powered_down_phy();
    let hsd = UsbHsDev { maj_rev: 4, min_rev: 2, err_code: 1, frame_nr: 3 };
    let hsh = UsbHsHost { portmode_dev_enable: false };
    let usb = Usb1::from((phy, hsd, hsh));
    let (raw_phy, raw_hsd, raw_hsh) = usb.release();
    assert_eq!(raw_phy, phy);
    assert_eq!(raw_hsd, hsd);
    assert_eq!(raw_hsh, hsh);
}

#[test]
fn hs_release_and_rewrap() {
    let phy = powered_down_phy();
    let hsd = UsbHsDev { maj_rev: 4, min_rev: 2, err_code: 1, frame_nr: 3 };
    let hsh = UsbHsHost { portmode_dev_enable: false };
    let usb = Usb1::new(phy, hsd, hsh);
    let (raw_phy, raw_hsd, raw_hsh) = usb.release();
    assert_eq!(raw_phy, phy);

    // Re-wrapping starts the lifecycle over in the `Unknown` state.
    let again = Usb1::new(raw_phy, raw_hsd, raw_hsh);
    let (back_phy, back_hsd, back_hsh) = again.release();
    assert_eq!(back_phy, phy);
    assert_eq!(back_hsd, hsd);
    assert_eq!(back_hsh, hsh);
}
