//! The analog-control block (ANACTRL), modeled as the two registers the USB
//! drivers touch: the 192 MHz FRO control register (start-of-frame locking)
//! and the 32 MHz crystal oscillator control register (PLL output routing).
//!
//! Requesting the start-of-frame lock puts a mode change in flight: the
//! hardware keeps a change-in-progress flag set for a hardware-dependent
//! number of polls, modeled by `usbmodchg_latency`.

use vstd::prelude::*;

use crate::trace::{HwOp, HwTrace};

verus! {

/// The ANACTRL registers the USB drivers touch.
#[derive(Clone, Copy, Debug, PartialEq, Eq, Structural)]
pub struct Anactrl {
    /// FRO192M_CTRL.USBCLKADJ: lock the 192 MHz FRO's phase to USB
    /// start-of-frame packets.
    pub usbclkadj: bool,
    /// How many polls of FRO192M_CTRL.USBMODCHG remain before the requested
    /// lock-mode change settles; zero means no change is in flight.
    pub usbmodchg_pending: u32,
    /// How long the hardware keeps a lock-mode change in flight: a lock
    /// request sets `usbmodchg_pending` to this value.
    pub usbmodchg_latency: u32,
    /// XO32M_CTRL.ENABLE_PLL_USB_OUT: route the crystal oscillator output to
    /// the USB PLL.
    pub xo32m_pll_usb_out: bool,
}

impl Anactrl {
    /// Requests locking of the 192 MHz FRO to USB start-of-frame packets;
    /// the mode change goes in flight.
    pub fn request_sof_lock(&mut self, t: &mut HwTrace)
        ensures
            *final(self) == (Anactrl {
                usbclkadj: true,
                usbmodchg_pending: old(self).usbmodchg_latency,
                ..*old(self)
            }),
            final(t).ops@ == old(t).ops@.push(HwOp::SofLockRequest),
    {
        self.usbclkadj = true;
        self.usbmodchg_pending = self.usbmodchg_latency;
        t.record(HwOp::SofLockRequest);
    }

    /// One poll of FRO192M_CTRL.USBMODCHG: reports whether the lock-mode
    /// change is still in flight, and lets modeled time pass.
    pub fn poll_usbmodchg(&mut self) -> (ongoing: bool)
        ensures
            ongoing == (old(self).usbmodchg_pending > 0),
            *final(self) == (Anactrl {
                usbmodchg_pending: if old(self).usbmodchg_pending > 0 {
                    (old(self).usbmodchg_pending - 1) as u32
                } else {
                    0
                },
                ..*old(self)
            }),
    {
        if self.usbmodchg_pending > 0 {
            self.usbmodchg_pending = self.usbmodchg_pending - 1;
            true
        } else {
            false
        }
    }

    /// Busy-waits until the lock-change-in-progress flag clears.  The poll is
    /// unbounded: it returns when — and only when — the change settles.
    pub fn wait_sof_lock(&mut self, t: &mut HwTrace)
        ensures
            *final(self) == (Anactrl { usbmodchg_pending: 0, ..*old(self) }),
            final(t).ops@ == old(t).ops@.push(HwOp::SofLockSettled),
    {
        loop
            invariant
                *self == (Anactrl { usbmodchg_pending: self.usbmodchg_pending, ..*old(self) }),
            ensures
                *self == (Anactrl { usbmodchg_pending: 0, ..*old(self) }),
            decreases self.usbmodchg_pending,
        {
            let ongoing = self.poll_usbmodchg();
            if !ongoing {
                break;
            }
        }
        t.record(HwOp::SofLockSettled);
    }

    /// Enables routing of the 32 MHz crystal oscillator output to the USB
    /// PLL.
    pub fn enable_pll_usb_out(&mut self, t: &mut HwTrace)
        ensures
            *final(self) == (Anactrl { xo32m_pll_usb_out: true, ..*old(self) }),
            final(t).ops@ == old(t).ops@.push(HwOp::PllUsbOutEnable),
    {
        self.xo32m_pll_usb_out = true;
        t.record(HwOp::PllUsbOutEnable);
    }
}

} // verus!
