//! Closing the session.

use vstd::prelude::*;
use crate::command::{Command, CommandView, Timeout};
use crate::error::Error;
use crate::operation::{Action, ActionView, Event, Operation, Step};

verus! {

/// The actions that close a session: the command that ends the compressed
/// write, which never asks the device to reboot, and then, if a reboot is
/// wanted, a reset through the transport.
pub open spec fn finish_script(reboot: bool) -> Seq<ActionView> {
    let end = ActionView::Exchange {
        command: CommandView::FlashDeflateEnd { reboot: false },
        timeout: Timeout::Standard,
    };
    if reboot {
        seq![end, ActionView::Reset]
    } else {
        seq![end]
    }
}

/// However a session is closed, the command that ends the write carries a
/// reboot flag that is off, it is the only command sent, and the device is
/// reset through the transport exactly when a reboot is wanted, after that
/// command.
pub proof fn lemma_finish_never_reboots_on_the_wire(reboot: bool)
    ensures
        finish_script(reboot).len() == if reboot {
            2nat
        } else {
            1nat
        },
        finish_script(reboot)[0] == (ActionView::Exchange {
            command: CommandView::FlashDeflateEnd { reboot: false },
            timeout: Timeout::Standard,
        }),
        forall|i: int|
            0 <= i < finish_script(reboot).len() ==> (#[trigger] finish_script(reboot)[i]
                is Reset <==> reboot && i == 1),
{
}

/// The closing of a session, under way.
#[derive(Debug)]
pub struct Finish {
    reboot: bool,
    issued: u8,
    closed: bool,
}

impl Finish {
    /// Begins to close the session. The first step is always the command that
    /// ends the compressed write.
    pub fn new(reboot: bool) -> (r: (Finish, Step))
        ensures
            r.0.wf(),
            !r.0.closed(),
            r.0.reboot() == reboot,
            r.0.issued() == 1,
            r.1 matches Step::Perform(action) && action@ == finish_script(reboot)[0],
    {
        let op = Finish { reboot, issued: 1, closed: false };
        let action = Action::Exchange {
            command: Command::FlashDeflateEnd { reboot: false },
            timeout: Timeout::Standard,
        };
        (op, Step::Perform(action))
    }

    /// Whether the device is to be reset once the write has been ended.
    pub closed spec fn reboot(&self) -> bool {
        self.reboot
    }
}

impl Operation for Finish {
    open spec fn script(&self) -> Seq<ActionView> {
        finish_script(self.reboot())
    }

    closed spec fn issued(&self) -> nat {
        self.issued as nat
    }

    closed spec fn closed(&self) -> bool {
        self.closed
    }

    closed spec fn wf(&self) -> bool {
        &&& self.issued <= finish_script(self.reboot).len()
        &&& !self.closed ==> self.issued >= 1
    }

    fn resume(&mut self, event: Event) -> (step: Step)
        ensures
            final(self).reboot() == old(self).reboot(),
            !old(self).closed() && event is Done ==> (if old(self).issued() < old(
                self,
            ).script().len() {
                step is Perform
            } else {
                step is Complete
            }),
    {
        if self.closed {
            return Step::Abort(Error::InvalidState);
        }
        match event {
            Event::Failed(e) => {
                self.closed = true;
                Step::Abort(e)
            },
            Event::Done => {
                if self.reboot && self.issued == 1 {
                    self.issued = 2;
                    Step::Perform(Action::Reset)
                } else {
                    self.closed = true;
                    Step::Complete
                }
            },
            _ => {
                self.closed = true;
                Step::Abort(Error::InvalidState)
            },
        }
    }
}

} // verus!
