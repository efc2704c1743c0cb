use vstd::prelude::*;

verus! {

/// What a non-blocking send on the capacity-1 hand-off channel reported.
#[derive(Clone, Copy, Debug, PartialEq, Eq, Structural)]
pub enum SendOutcome {
    Sent,
    /// The previous message has not been taken yet; this one was not queued.
    Full,
    /// The receiving side is gone.
    Disconnected,
}

/// What to do with a message that the bus has just delivered.
#[derive(Clone, Copy, Debug, PartialEq, Eq, Structural)]
pub enum Arrival {
    /// Try a non-blocking send of the payload.
    Send,
    /// The bridge is disabled: drop the payload without trying.
    DropDisabled,
}

/// What became of a message that was offered to the channel.
#[derive(Clone, Copy, Debug, PartialEq, Eq, Structural)]
pub enum HandOff {
    Delivered,
    /// The channel was full: the newer message is dropped, the queued one kept.
    DroppedFull,
    /// The receiver is gone: the bridge has disabled itself for good.
    Disabled,
}

/// The producer side of the hand-off: a latch that is active until the
/// receiver is seen to be gone, and disabled from then on.
pub struct Bridge {
    active: bool,
}

impl Bridge {
    /// Whether the bridge still offers messages to the channel.
    pub closed spec fn is_live(&self) -> bool {
        self.active
    }

    /// A bridge that offers every message.
    pub fn new() -> (r: Bridge)
        ensures
            r.is_live(),
    {
        Bridge { active: true }
    }

    pub fn is_active(&self) -> (r: bool)
        ensures
            r == self.is_live(),
    {
        self.active
    }

    /// Decides whether a newly delivered message is offered to the channel.
    pub fn on_message(&self) -> (r: Arrival)
        ensures
            r == (if self.is_live() {
                Arrival::Send
            } else {
                Arrival::DropDisabled
            }),
    {
        if self.active {
            Arrival::Send
        } else {
            Arrival::DropDisabled
        }
    }

    /// Takes in the outcome of a send. A full channel drops the message and
    /// leaves the bridge active; a vanished receiver disables it for good.
    pub fn on_send_outcome(&mut self, o: SendOutcome) -> (r: HandOff)
        ensures
            final(self).is_live() == (old(self).is_live() && o != SendOutcome::Disconnected),
            r == (match o {
                SendOutcome::Sent => HandOff::Delivered,
                SendOutcome::Full => HandOff::DroppedFull,
                SendOutcome::Disconnected => HandOff::Disabled,
            }),
    {
        match o {
            SendOutcome::Sent => HandOff::Delivered,
            SendOutcome::Full => HandOff::DroppedFull,
            SendOutcome::Disconnected => {
                self.active = false;
                HandOff::Disabled
            },
        }
    }
}

} // verus!
