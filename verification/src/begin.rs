//! Attaching the flash.

use vstd::prelude::*;
use crate::chip::{Chip, RtcWatchdog, USB_SERIAL_JTAG_PID};
use crate::command::{Command, CommandView, Timeout};
use crate::error::Error;
use crate::operation::{Action, ActionView, Event, Operation, Step};
use crate::target::Esp32Target;

verus! {

/// The command that attaches the flash: the stub loader's form of it for a
/// target that talks to the stub, the ROM loader's otherwise.
pub open spec fn attach_command(target: Esp32Target) -> CommandView {
    if target.use_stub {
        CommandView::SpiAttachStub { spi_params: target.spi_attach_params }
    } else {
        CommandView::SpiAttach { spi_params: target.spi_attach_params }
    }
}

/// A plain write of `value` to the register at `address`, under the deadline
/// that the transport already works under.
pub open spec fn register_write(address: u32, value: u32) -> ActionView {
    ActionView::Exchange {
        command: CommandView::WriteReg { address, value, mask: None },
        timeout: Timeout::Ambient,
    }
}

/// The three register writes that switch a chip's RTC watchdog off: unlock its
/// registers, disable it, lock the registers again.
pub open spec fn watchdog_writes(registers: RtcWatchdog) -> Seq<ActionView> {
    seq![
        register_write(registers.write_protect, registers.unlock_key),
        register_write(registers.enable, 0),
        register_write(registers.write_protect, 0),
    ]
}

/// What is done about the watchdog of `chip` once the port's product id is
/// known: its three register writes if the chip has such a watchdog and the
/// port is its USB-Serial-JTAG peripheral, nothing otherwise.
pub open spec fn watchdog_script(chip: Chip, usb_pid: Option<u16>) -> Seq<ActionView> {
    match (usb_pid, chip.spec_rtc_watchdog()) {
        (Some(pid), Some(registers)) => if pid == USB_SERIAL_JTAG_PID {
            watchdog_writes(registers)
        } else {
            Seq::empty()
        },
        _ => Seq::empty(),
    }
}

/// The actions that attach the flash: the attach command under its fixed
/// deadline, the question for the port's product id, and what the answer calls
/// for. As long as the answer is not known (`usb_pid` is `None`), the script
/// ends with the question.
pub open spec fn begin_script(target: Esp32Target, usb_pid: Option<u16>) -> Seq<ActionView> {
    seq![
        ActionView::Exchange { command: attach_command(target), timeout: Timeout::Standard },
        ActionView::QueryUsbPid,
    ] + watchdog_script(target.chip, usb_pid)
}

/// A chip with an RTC watchdog, reached through its USB-Serial-JTAG
/// peripheral, gets exactly the three writes, in the order unlock, disable,
/// lock, right after the question for the product id. In every other case no
/// register is written at all.
pub proof fn lemma_watchdog_sequence(target: Esp32Target, usb_pid: u16)
    ensures
        match target.chip.spec_rtc_watchdog() {
            Some(registers) if usb_pid == USB_SERIAL_JTAG_PID => {
                &&& begin_script(target, Some(usb_pid)).len() == 5
                &&& begin_script(target, Some(usb_pid))[2] == register_write(
                    registers.write_protect,
                    registers.unlock_key,
                )
                &&& begin_script(target, Some(usb_pid))[3] == register_write(registers.enable, 0)
                &&& begin_script(target, Some(usb_pid))[4] == register_write(
                    registers.write_protect,
                    0,
                )
            },
            _ => begin_script(target, Some(usb_pid)).len() == 2,
        },
        forall|i: int|
            0 <= i < 2 ==> !(#[trigger] begin_script(target, Some(usb_pid))[i] matches ActionView::Exchange {
                command: CommandView::WriteReg { .. },
                ..
            }),
{
}

/// The script that holds before the product id is known is the beginning of
/// the one that holds after.
pub proof fn lemma_begin_script_grows(target: Esp32Target, usb_pid: u16)
    ensures
        begin_script(target, None).len() == 2,
        begin_script(target, None).is_prefix_of(begin_script(target, Some(usb_pid))),
{
}

/// The attaching of the flash, under way.
#[derive(Debug)]
pub struct Begin {
    target: Esp32Target,
    usb_pid: Option<u16>,
    issued: u8,
    closed: bool,
}

impl Begin {
    /// Begins to attach the flash of `target`. The first step is always the
    /// attach command.
    pub fn new(target: Esp32Target) -> (r: (Begin, Step))
        ensures
            r.0.wf(),
            !r.0.closed(),
            r.0.target() == target,
            r.0.usb_pid() is None,
            r.0.issued() == 1,
            r.1 matches Step::Perform(action) && action@ == begin_script(target, None)[0],
    {
        let command = if target.use_stub {
            Command::SpiAttachStub { spi_params: target.spi_attach_params }
        } else {
            Command::SpiAttach { spi_params: target.spi_attach_params }
        };
        let op = Begin { target, usb_pid: None, issued: 1, closed: false };
        (op, Step::Perform(Action::Exchange { command, timeout: Timeout::Standard }))
    }

    /// The target whose flash is being attached.
    pub closed spec fn target(&self) -> Esp32Target {
        self.target
    }

    /// The port's product id, once it has been reported.
    pub closed spec fn usb_pid(&self) -> Option<u16> {
        self.usb_pid
    }

    /// The register write that stands at `index` among the watchdog's three.
    fn watchdog_write(registers: RtcWatchdog, index: u8) -> (r: Action)
        requires
            index < 3,
        ensures
            r@ == watchdog_writes(registers)[index as int],
    {
        let (address, value): (u32, u32) = if index == 0 {
            (registers.write_protect, registers.unlock_key)
        } else if index == 1 {
            (registers.enable, 0)
        } else {
            (registers.write_protect, 0)
        };
        Action::Exchange {
            command: Command::WriteReg { address, value, mask: None },
            timeout: Timeout::Ambient,
        }
    }
}

impl Operation for Begin {
    open spec fn script(&self) -> Seq<ActionView> {
        begin_script(self.target(), self.usb_pid())
    }

    closed spec fn issued(&self) -> nat {
        self.issued as nat
    }

    closed spec fn closed(&self) -> bool {
        self.closed
    }

    closed spec fn wf(&self) -> bool {
        &&& self.issued <= begin_script(self.target, self.usb_pid).len()
        &&& !self.closed ==> self.issued >= 1
        &&& self.usb_pid is Some ==> self.issued >= 2
        &&& self.usb_pid is None ==> self.issued <= 2
        &&& !self.closed && self.issued == 2 ==> self.usb_pid is None
    }

    fn resume(&mut self, event: Event) -> (step: Step)
        ensures
            final(self).target() == old(self).target(),
            !old(self).closed() && old(self).issued() == 1 && event is Done ==> {
                &&& step is Perform
                &&& final(self).usb_pid() is None
            },
            !old(self).closed() && old(self).issued() == 2 ==> (event matches Event::UsbPid(pid)
                ==> {
                &&& final(self).usb_pid() == Some(pid)
                &&& final(self).script().len() > 2 ==> step is Perform
                &&& final(self).script().len() <= 2 ==> step is Complete
            }),
            !old(self).closed() && old(self).issued() > 2 && event is Done ==> {
                &&& final(self).usb_pid() == old(self).usb_pid()
                &&& old(self).issued() < old(self).script().len() ==> step is Perform
                &&& old(self).issued() >= old(self).script().len() ==> step is Complete
            },
    {
        if self.closed {
            return Step::Abort(Error::InvalidState);
        }
        match event {
            Event::Failed(e) => {
                self.closed = true;
                Step::Abort(e)
            },
            Event::Done => {
                if self.issued == 1 {
                    self.issued = 2;
                    Step::Perform(Action::QueryUsbPid)
                } else if self.issued == 2 {
                    self.closed = true;
                    Step::Abort(Error::InvalidState)
                } else {
                    self.next_write()
                }
            },
            Event::UsbPid(pid) => {
                if self.issued == 2 {
                    self.usb_pid = Some(pid);
                    self.next_write()
                } else {
                    self.closed = true;
                    Step::Abort(Error::InvalidState)
                }
            },
            _ => {
                self.closed = true;
                Step::Abort(Error::InvalidState)
            },
        }
    }
}

impl Begin {
    /// Hands out the next register write, or ends the operation if none is
    /// left.
    fn next_write(&mut self) -> (step: Step)
        requires
            !old(self).closed,
            old(self).usb_pid is Some,
            2 <= old(self).issued <= begin_script(old(self).target, old(self).usb_pid).len(),
        ensures
            final(self).wf(),
            final(self).target == old(self).target,
            final(self).usb_pid == old(self).usb_pid,
            if old(self).issued() < old(self).script().len() {
                &&& step matches Step::Perform(action)
                &&& action@ == old(self).script()[old(self).issued() as int]
                &&& final(self).issued == old(self).issued + 1
                &&& !final(self).closed
            } else {
                &&& step is Complete
                &&& final(self).issued == old(self).issued
                &&& final(self).closed
            },
    {
        let due = match (self.usb_pid, self.target.chip.rtc_watchdog()) {
            (Some(pid), Some(registers)) => if pid == USB_SERIAL_JTAG_PID {
                Some(registers)
            } else {
                None
            },
            _ => None,
        };
        match due {
            Some(registers) => {
                if self.issued < 5 {
                    let action = Self::watchdog_write(registers, self.issued - 2);
                    self.issued = self.issued + 1;
                    Step::Perform(action)
                } else {
                    self.closed = true;
                    Step::Complete
                }
            },
            None => {
                self.closed = true;
                Step::Complete
            },
        }
    }
}

} // verus!
