//! The chips of the family and what sets them apart while flashing.

use vstd::prelude::*;

verus! {

/// The USB product id under which a chip's built-in USB-Serial-JTAG peripheral
/// shows up on the host.
pub const USB_SERIAL_JTAG_PID: u16 = 0x1001;

/// A chip of the family.
#[derive(Clone, Copy, Debug, PartialEq, Eq, Structural)]
pub enum Chip {
    Esp32,
    Esp32c2,
    Esp32c3,
    Esp32c6,
    Esp32h2,
    Esp32s2,
    Esp32s3,
    Esp8266,
}

/// The registers through which a chip's RTC watchdog is switched off.
#[derive(Clone, Copy, Debug, PartialEq, Eq, Structural)]
pub struct RtcWatchdog {
    /// Address of the write-protect register.
    pub write_protect: u32,
    /// Address of the register that enables the watchdog.
    pub enable: u32,
    /// The value that, written to the write-protect register, unlocks the
    /// watchdog's registers.
    pub unlock_key: u32,
}

impl Chip {
    /// The RTC watchdog registers of the chips whose watchdog has to be
    /// switched off before flashing over USB-Serial-JTAG; `None` for the
    /// others.
    pub open spec fn spec_rtc_watchdog(self) -> Option<RtcWatchdog> {
        match self {
            Chip::Esp32c3 => Some(
                RtcWatchdog {
                    write_protect: 0x6000_80a8,
                    enable: 0x6000_8090,
                    unlock_key: 0x50D8_3AA1,
                },
            ),
            Chip::Esp32s3 => Some(
                RtcWatchdog {
                    write_protect: 0x6000_80B0,
                    enable: 0x6000_8098,
                    unlock_key: 0x50D8_3AA1,
                },
            ),
            _ => None,
        }
    }

    /// The RTC watchdog registers of the chips whose watchdog has to be
    /// switched off before flashing over USB-Serial-JTAG; `None` for the
    /// others.
    #[verifier::when_used_as_spec(spec_rtc_watchdog)]
    pub fn rtc_watchdog(self) -> (r: Option<RtcWatchdog>)
        ensures
            r == self.spec_rtc_watchdog(),
    {
        match self {
            Chip::Esp32c3 => Some(
                RtcWatchdog {
                    write_protect: 0x6000_80a8,
                    enable: 0x6000_8090,
                    unlock_key: 0x50D8_3AA1,
                },
            ),
            Chip::Esp32s3 => Some(
                RtcWatchdog {
                    write_protect: 0x6000_80B0,
                    enable: 0x6000_8098,
                    unlock_key: 0x50D8_3AA1,
                },
            ),
            _ => None,
        }
    }

    /// Whether the chip may be offered flash encryption: every chip but the
    /// ESP32 itself, the first of the family.
    pub open spec fn spec_may_encrypt(self) -> bool {
        self != Chip::Esp32
    }

    /// Whether the chip may be offered flash encryption: every chip but the
    /// ESP32 itself, the first of the family.
    #[verifier::when_used_as_spec(spec_may_encrypt)]
    pub fn may_encrypt(self) -> (r: bool)
        ensures
            r == self.spec_may_encrypt(),
    {
        match self {
            Chip::Esp32 => false,
            _ => true,
        }
    }
}

} // verus!
