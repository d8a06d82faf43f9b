//! What an operation of a flashing session asks of its caller, and what the
//! caller hands back.
//!
//! An operation never touches the transport. It says what is to be done next,
//! the caller does it and reports how it went, and the operation decides on
//! the step after that.

use vstd::prelude::*;
use crate::command::{Command, CommandView, Timeout};
use crate::error::Error;

verus! {

/// One thing for the caller to do.
#[derive(Debug, PartialEq, Eq)]
pub enum Action {
    /// Send the command and wait for the device's response, under the given
    /// deadline.
    Exchange { command: Command, timeout: Timeout },
    /// Find out the USB product id of the port that the host talks through.
    QueryUsbPid,
    /// Find out how many bytes the chip takes in one block of a flash write.
    QueryFlashWriteSize,
    /// Tell whoever follows the progress that `completed` of `total` blocks
    /// have been written.
    Report { completed: usize, total: usize },
    /// Reset the device through the transport.
    Reset,
}

/// What an [`Action`] is in contracts.
pub enum ActionView {
    Exchange { command: CommandView, timeout: Timeout },
    QueryUsbPid,
    QueryFlashWriteSize,
    Report { completed: usize, total: usize },
    Reset,
}

impl View for Action {
    type V = ActionView;

    open spec fn view(&self) -> ActionView {
        match *self {
            Action::Exchange { command, timeout } => ActionView::Exchange {
                command: command@,
                timeout,
            },
            Action::QueryUsbPid => ActionView::QueryUsbPid,
            Action::QueryFlashWriteSize => ActionView::QueryFlashWriteSize,
            Action::Report { completed, total } => ActionView::Report { completed, total },
            Action::Reset => ActionView::Reset,
        }
    }
}

/// How the action that an operation asked for went.
#[derive(Clone, Copy, Debug, PartialEq, Eq, Structural)]
pub enum Event {
    /// The action was carried out and there is nothing to tell.
    Done,
    /// The USB product id that was asked for.
    UsbPid(u16),
    /// The write block size that was asked for.
    FlashWriteSize(usize),
    /// The action failed.
    Failed(Error),
}

/// What an operation wants next.
#[derive(Debug, PartialEq, Eq)]
pub enum Step {
    /// The caller is to carry out the action and resume the operation with its
    /// outcome.
    Perform(Action),
    /// The operation has succeeded. There is nothing left to do.
    Complete,
    /// The operation has failed. There is nothing left to do.
    Abort(Error),
}

/// Whether `event` reports that `action` was carried out.
pub open spec fn answers(action: ActionView, event: Event) -> bool {
    match action {
        ActionView::QueryUsbPid => event is UsbPid,
        ActionView::QueryFlashWriteSize => event is FlashWriteSize,
        _ => event is Done,
    }
}

/// An operation of a flashing session, taken one action at a time.
pub trait Operation: Sized {
    /// The actions of a run in which nothing fails, in order, as far as the
    /// answers received so far determine them.
    spec fn script(&self) -> Seq<ActionView>;

    /// How many actions of the script have been handed out.
    spec fn issued(&self) -> nat;

    /// Whether the operation has ended, in success or in failure.
    spec fn closed(&self) -> bool;

    /// What holds of every operation that this library hands out.
    spec fn wf(&self) -> bool;

    /// Takes the outcome of the action handed out last and decides what comes
    /// next.
    ///
    /// An operation that has ended stays ended. A failure ends it at once, with
    /// the error that was reported, and so does an event that does not answer
    /// the action handed out last. Otherwise the next action is the script's
    /// next entry, and what has been handed out so far stays as it was.
    fn resume(&mut self, event: Event) -> (step: Step)
        requires
            old(self).wf(),
        ensures
            final(self).wf(),
            old(self).closed() ==> step == Step::Abort(Error::InvalidState),
            !old(self).closed() ==> 1 <= old(self).issued() <= old(self).script().len(),
            !old(self).closed() ==> (event matches Event::Failed(e) ==> step == Step::Abort(e)),
            !old(self).closed() && !(event is Failed) ==> (!answers(
                old(self).script()[old(self).issued() - 1],
                event,
            ) ==> step == Step::Abort(Error::InvalidState)),
            step matches Step::Perform(action) ==> {
                &&& !final(self).closed()
                &&& final(self).issued() == old(self).issued() + 1
                &&& final(self).issued() <= final(self).script().len()
                &&& final(self).script()[old(self).issued() as int] == action@
                &&& final(self).script().take(old(self).issued() as int) == old(
                    self,
                ).script().take(old(self).issued() as int)
            },
            step is Complete ==> {
                &&& final(self).closed()
                &&& final(self).issued() == old(self).issued()
                &&& final(self).issued() == final(self).script().len()
                &&& final(self).script().take(old(self).issued() as int) == old(
                    self,
                ).script().take(old(self).issued() as int)
            },
            step is Abort ==> {
                &&& final(self).closed()
                &&& final(self).issued() == old(self).issued()
            },
    ;
}

} // verus!
