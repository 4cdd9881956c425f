//! End-to-end scenarios for the full-speed USB controller.

use lpc55_hal::clocks::Clocks;
use lpc55_hal::peripherals::anactrl::Anactrl;
use lpc55_hal::peripherals::pmc::Pmc;
use lpc55_hal::peripherals::syscon::Syscon;
use lpc55_hal::peripherals::usb0::Usb0;
use lpc55_hal::registers::{UsbFsDev, UsbFsHost};
use lpc55_hal::trace::{HwBlock, HwOp, HwTrace};
use lpc55_hal::typestates::main_clock::MainClock;

fn fresh_syscon() -> Syscon {
    Syscon {
        usb0clkdiv_div: 0,
        usb0clkdiv_halted: true,
        usb0clksel: 7,
        usb0clkdiv_pending: 0,
        usb0clkdiv_latency: 3,
        usb1_ram_clock: false,
        usb_fs_dev_clock: false,
        usb_fs_host_clock: false,
        usb_hs_dev_clock: false,
        usb_hs_host_clock: false,
        usb_hs_phy_clock: false,
    }
}

fn fresh_pmc() -> Pmc {
    Pmc {
        usb_fs_dev_powered: false,
        usb_fs_host_powered: false,
        usb_hs_dev_powered: false,
        usb_hs_host_powered: false,
        usb_hs_phy_powered: false,
        xtal32m_powered: false,
        ldo_xo32m_powered: false,
    }
}

fn fresh_anactrl() -> Anactrl {
    Anactrl {
        usbclkadj: false,
        usbmodchg_pending: 0,
        usbmodchg_latency: 2,
        xo32m_pll_usb_out: false,
    }
}

fn valid_clocks() -> Clocks {
    Clocks {
        main_clock: MainClock::Fro96Mhz,
        fro96mhz_on: true,
        xtal32m_present: true,
    }
}

#[test]
fn usbfs_token_issued_iff_fro96mhz_on() {
    let good = valid_clocks();
    assert!(good.support_usbfs_token().is_some());

    let bad = Clocks {
        main_clock: MainClock::Fro12Mhz,
        fro96mhz_on: false,
        xtal32m_present: true,
    };
    assert!(bad.support_usbfs_token().is_none());
}

#[test]
fn fs_enable_reads_info() {
    let fsd = UsbFsDev { maj_rev: 2, min_rev: 5, err_code: 0, frame_nr: 77 };
    let fsh = UsbFsHost { portmode_dev_enable: false };
    let usb = Usb0::new(fsd, fsh);
    let mut syscon = fresh_syscon();
    let mut pmc = fresh_pmc();
    let mut anactrl = fresh_anactrl();
    let mut trace = HwTrace::new();
    let token = valid_clocks().support_usbfs_token().unwrap();

    let enabled = usb.enabled_as_device(&mut anactrl, &mut pmc, &mut syscon, &mut trace, token);

    let info = enabled.info();
    assert_eq!(info.maj_rev, 2);
    assert_eq!(info.min_rev, 5);
    assert_eq!(info.err_code, 0);
    assert_eq!(info.frame_nr, 77);

    // A second read returns the same values: the read mutates nothing.
    let again = enabled.info();
    assert_eq!(again, info);
}

#[test]
fn fs_enable_performs_exact_sequence() {
    let fsd = UsbFsDev { maj_rev: 1, min_rev: 0, err_code: 0, frame_nr: 0 };
    let fsh = UsbFsHost { portmode_dev_enable: false };
    let usb = Usb0::new(fsd, fsh);
    let mut syscon = fresh_syscon();
    let mut pmc = fresh_pmc();
    let mut anactrl = fresh_anactrl();
    let mut trace = HwTrace::new();
    let token = valid_clocks().support_usbfs_token().unwrap();

    let _enabled = usb.enabled_as_device(&mut anactrl, &mut pmc, &mut syscon, &mut trace, token);

    let expected = vec![
        HwOp::Usb0ClkDivWrite { div: 1 },
        HwOp::Usb0ClkDivRun,
        HwOp::Usb0ClkSelWrite { sel: 3 },
        HwOp::Usb0ClkDivSettled,
        HwOp::PowerOn { block: HwBlock::UsbFsDev },
        HwOp::Reset { block: HwBlock::UsbFsDev },
        HwOp::ClockEnable { block: HwBlock::UsbFsDev },
        HwOp::ClockEnable { block: HwBlock::UsbFsHost },
        HwOp::PortModeDeviceEnable { block: HwBlock::UsbFsHost },
        HwOp::ClockDisable { block: HwBlock::UsbFsHost },
        HwOp::Usb1SramClockEnable,
        HwOp::SofLockRequest,
        HwOp::SofLockSettled,
    ];
    assert_eq!(trace.ops, expected);

    assert_eq!(syscon.usb0clkdiv_div, 1);
    assert!(!syscon.usb0clkdiv_halted);
    assert_eq!(syscon.usb0clksel, 3);
    assert_eq!(syscon.usb0clkdiv_pending, 0);
    assert!(syscon.usb_fs_dev_clock);
    assert!(!syscon.usb_fs_host_clock);
    assert!(syscon.usb1_ram_clock);
    assert!(pmc.usb_fs_dev_powered);
    assert!(anactrl.usbclkadj);
    assert_eq!(anactrl.usbmodchg_pending, 0);
}

#[test]
fn fs_enable_settles_divider_before_phy_power() {
    let fsd = UsbFsDev { maj_rev: 1, min_rev: 0, err_code: 0, frame_nr: 0 };
    let fsh = UsbFsHost { portmode_dev_enable: false };
    let usb = Usb0::new(fsd, fsh);
    let mut syscon = fresh_syscon();
    let mut pmc = fresh_pmc();
    let mut anactrl = fresh_anactrl();
    let mut trace = HwTrace::new();
    let token = valid_clocks().support_usbfs_token().unwrap();

    let _enabled = usb.enabled_as_device(&mut anactrl, &mut pmc, &mut syscon, &mut trace, token);

    let settled = trace
        .ops
        .iter()
        .position(|op| *op == HwOp::Usb0ClkDivSettled)
        .expect("divider busy-wait completion must be recorded");
    let power_on = trace
        .ops
        .iter()
        .position(|op| *op == HwOp::PowerOn { block: HwBlock::UsbFsDev })
        .expect("PHY power-on must be recorded");
    assert!(settled < power_on);
}

#[test]
fn fs_disable_powers_down_but_keeps_shared_state() {
    let fsd = UsbFsDev { maj_rev: 1, min_rev: 1, err_code: 4, frame_nr: 1024 };
    let fsh = UsbFsHost { portmode_dev_enable: false };
    let usb = Usb0::new(fsd, fsh);
    let mut syscon = fresh_syscon();
    let mut pmc = fresh_pmc();
    let mut anactrl = fresh_anactrl();
    let mut trace = HwTrace::new();
    let token = valid_clocks().support_usbfs_token().unwrap();

    let enabled = usb.enabled_as_device(&mut anactrl, &mut pmc, &mut syscon, &mut trace, token);
    let before = trace.len();

    let disabled = enabled.disabled(&mut pmc, &mut syscon, &mut trace);

    assert_eq!(trace.len(), before + 2);
    assert_eq!(trace.op_at(before), HwOp::PowerOff { block: HwBlock::UsbFsDev });
    assert_eq!(trace.op_at(before + 1), HwOp::ClockDisable { block: HwBlock::UsbFsDev });
    assert!(!pmc.usb_fs_dev_powered);
    assert!(!syscon.usb_fs_dev_clock);

    // The teardown is asymmetric: the divider configuration, the shared SRAM
    // clock gate and the start-of-frame lock are not reversed.
    assert_eq!(syscon.usb0clkdiv_div, 1);
    assert!(syscon.usb1_ram_clock);
    assert!(anactrl.usbclkadj);

    // The disabled handle still owns the blocks; release hands them back
    // with the port-mode bit as the enable sequence left it.
    let (raw_fsd, raw_fsh) = disabled.release();
    assert_eq!(raw_fsd.maj_rev, 1);
    assert_eq!(raw_fsd.frame_nr, 1024);
    assert!(raw_fsh.portmode_dev_enable);
}

#[test]
fn fs_release_and_rewrap() {
    let fsd = UsbFsDev { maj_rev: 9, min_rev: 8, err_code: 7, frame_nr: 6 };
    let fsh = UsbFsHost { portmode_dev_enable: false };
    let usb = Usb0::new(fsd, fsh);
    let (raw_fsd, raw_fsh) = usb.release();
    assert_eq!(raw_fsd, fsd);
    assert_eq!(raw_fsh, fsh);

    // Re-wrapping starts the lifecycle over in the `Unknown` state.
    let again = Usb0::new(raw_fsd, raw_fsh);
    let (back_fsd, back_fsh) = again.release();
    assert_eq!(back_fsd, fsd);
    assert_eq!(back_fsh, fsh);
}

#[test]
fn trace_records_in_order() {
    let mut trace = HwTrace::new();
    assert_eq!(trace.len(), 0);
    trace.record(HwOp::Usb1SramClockEnable);
    trace.record(HwOp::SofLockRequest);
    assert_eq!(trace.len(), 2);
    assert_eq!(trace.op_at(0), HwOp::Usb1SramClockEnable);
    assert_eq!(trace.op_at(1), HwOp::SofLockRequest);
}

#[test]
fn fs_from_raw_pair() {
    let fsd = UsbFsDev { maj_rev: 4, min_rev: 2, err_code: 1, frame_nr: 3 };
    let fsh = UsbFsHost { portmode_dev_enable: false };
    let usb = Usb0::from((fsd, fsh));
    let (raw_fsd, raw_fsh) = usb.release();
    assert_eq!(raw_fsd, fsd);
    assert_eq!(raw_fsh, fsh);
}
