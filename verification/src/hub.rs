//! The plain hub: a root loop without acknowledgements.
//!
//! A hub is the simplest owner of a mounted view. Components signal it that
//! something changed; it renders once for every signal that says so, and it
//! stops when it is told to drop the view. Nobody is told when a pass has
//! finished. The [`crate::entry::Entry`] is the hub with acknowledgements
//! and with render requests folded into passes.

use crate::entry::MountPoint;
use crate::mailbox::Mailbox;
use vstd::prelude::*;

verus! {

/// A message for the hub.
#[derive(Clone, Copy, Debug, PartialEq, Eq, Structural)]
pub enum HubMsg {
    /// Render the view.
    Render,
    /// Drop the view and stop.
    Drop,
}

/// What a turn of the hub came to.
#[derive(Clone, Copy, Debug, PartialEq, Eq, Structural)]
pub enum HubStep {
    /// The hub has stopped, or no view is bound to it.
    Stopped,
    /// No message waits.
    Idle,
    /// The view is to be rendered now.
    Render,
    /// The view was dropped; the hub has stopped.
    Dropped,
}

/// The owner of a mounted view.
pub struct MessageHub {
    /// The messages that wait, oldest first.
    pub hub_tx: Mailbox<HubMsg>,
    /// Whether a view is bound to the hub.
    pub bound: bool,
    /// Whether the hub has stopped.
    pub stopped: bool,
}

impl MessageHub {
    /// A hub without a view.
    pub fn new() -> (hub: Self)
        ensures
            hub.hub_tx@.len() == 0,
            !hub.bound,
            !hub.stopped,
    {
        MessageHub { hub_tx: Mailbox::new(), bound: false, stopped: false }
    }

    /// Chooses the place for the view and binds the view to the hub. With a
    /// tag the view goes to a block that is made for it and given the tag as
    /// its id; without one it goes to the body.
    pub fn bind_root_el(&mut self, block: Option<&str>) -> (place: MountPoint)
        ensures
            place.chosen_for(block, false),
            final(self).bound,
            final(self).hub_tx == old(self).hub_tx,
            final(self).stopped == old(self).stopped,
    {
        self.bind_vdom();
        MountPoint::select(block, false)
    }

    /// Binds a view to the hub.
    pub fn bind_vdom(&mut self)
        ensures
            final(self).bound,
            final(self).hub_tx == old(self).hub_tx,
            final(self).stopped == old(self).stopped,
    {
        self.bound = true;
    }

    /// Takes a signal of a component. A signal that says that something
    /// changed asks the hub to render, unless the hub has stopped; the
    /// result says whether the hub was asked.
    pub fn mount_el_rx(&mut self, changed: bool) -> (asked: bool)
        ensures
            asked == (changed && !old(self).stopped),
            final(self).bound == old(self).bound,
            final(self).stopped == old(self).stopped,
            final(self).hub_tx@ == if asked {
                old(self).hub_tx@.push(HubMsg::Render)
            } else {
                old(self).hub_tx@
            },
    {
        if changed && !self.stopped {
            self.hub_tx.send(HubMsg::Render);
            true
        } else {
            false
        }
    }

    /// One turn of the hub. `Render` asks for one pass. `Drop` unbinds the
    /// view and stops the hub; the messages behind it are never taken.
    pub fn mount_hub_rx(&mut self) -> (step: HubStep)
        ensures
            old(self).stopped || !old(self).bound ==> step is Stopped,
            !old(self).stopped && old(self).bound && old(self).hub_tx@.len() == 0 ==> step is Idle,
            step is Stopped || step is Idle ==> *final(self) == *old(self),
            !old(self).stopped && old(self).bound && old(self).hub_tx@.len() > 0 ==> {
                &&& final(self).hub_tx@ == old(self).hub_tx@.drop_first()
                &&& match old(self).hub_tx@[0] {
                    HubMsg::Render => step is Render && final(self).bound && !final(self).stopped,
                    HubMsg::Drop => step is Dropped && !final(self).bound && final(self).stopped,
                }
            },
    {
        if self.stopped || !self.bound {
            return HubStep::Stopped;
        }
        if self.hub_tx.is_empty() {
            return HubStep::Idle;
        }
        match self.hub_tx.recv() {
            Some(HubMsg::Render) => HubStep::Render,
            Some(HubMsg::Drop) => {
                self.bound = false;
                self.stopped = true;
                HubStep::Dropped
            },
            None => HubStep::Idle,
        }
    }
}

} // verus!
