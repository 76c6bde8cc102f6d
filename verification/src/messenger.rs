//! Messages: requests to change the state of a container.

use crate::completion::completion_pair;
use crate::mailbox::Mailbox;
use futures::channel::oneshot;
use vstd::prelude::*;

verus! {

/// A message on its way to a container, with the signal that tells its
/// sender when it has been applied.
pub struct Envelope<M> {
    pub msg: M,
    pub done: oneshot::Sender<()>,
}

/// A request to repaint, with the signal that tells the requester when a
/// render pass that covers the request has finished.
pub struct RenderRequest {
    pub done: oneshot::Sender<()>,
}

/// The mailbox through which messages reach a container.
pub type MessageSender<M> = Mailbox<Envelope<M>>;

/// The mailbox through which render requests reach the render coordinator.
pub type RenderSender = Mailbox<RenderRequest>;

/// The messages of a queue of envelopes, oldest first.
pub open spec fn messages<M>(queue: Seq<Envelope<M>>) -> Seq<M> {
    queue.map_values(|envelope: Envelope<M>| envelope.msg)
}

/// A state transition of a component.
///
/// A message is total: it can be applied to every state. What it does is a
/// function of the message and the state it meets, given by `updated`,
/// `rerenders`, `follow_ups` and `render_requests`; `update` carries it out.
pub trait Messenger: Sized {
    /// The state that the message changes.
    type Target;

    /// The state after the message has been applied to `target`.
    spec fn updated(self, target: Self::Target) -> Self::Target;

    /// Whether the view may be stale after the message has been applied to
    /// `target`.
    spec fn rerenders(self, target: Self::Target) -> bool;

    /// The messages that the message sends to its own container while it is
    /// applied to `target`, in the order in which it sends them.
    open spec fn follow_ups(self, target: Self::Target) -> Seq<Self> {
        Seq::empty()
    }

    /// How many render requests the message files by itself while it is
    /// applied to `target`.
    open spec fn render_requests(self, target: Self::Target) -> nat {
        0
    }

    /// Applies the message. `sender` is the mailbox of the container that owns
    /// `target`; `render_tx` is the mailbox of the render coordinator. The
    /// result says whether the view may be stale.
    fn update(
        self,
        target: &mut Self::Target,
        sender: &mut MessageSender<Self>,
        render_tx: &mut RenderSender,
    ) -> (rerender: bool)
        ensures
            *final(target) == self.updated(*old(target)),
            rerender == self.rerenders(*old(target)),
            messages(final(sender)@) == messages(old(sender)@) + self.follow_ups(*old(target)),
            final(sender)@.len() >= old(sender)@.len(),
            final(sender)@.subrange(0, old(sender)@.len() as int) == old(sender)@,
            final(render_tx)@.len() == old(render_tx)@.len() + self.render_requests(*old(target)),
            final(render_tx)@.subrange(0, old(render_tx)@.len() as int) == old(render_tx)@,
    ;

    /// Sends the message towards its target: puts it behind everything that
    /// waits in `sender`. The result resolves once the message has been
    /// applied.
    fn dispatch(self, sender: &mut MessageSender<Self>) -> (receipt: oneshot::Receiver<()>)
        ensures
            final(sender)@.len() == old(sender)@.len() + 1,
            final(sender)@.drop_last() == old(sender)@,
            final(sender)@.last().msg == self,
            messages(final(sender)@) == messages(old(sender)@).push(self),
    {
        let (done, receipt) = completion_pair();
        sender.send(Envelope { msg: self, done });
        receipt
    }
}

/// Handles one event of the outside world: turns it into a message with
/// `convert` and dispatches the message into `sender`.
pub fn consume<E, M: Messenger, F: Fn(E) -> M>(convert: &F, event: E, sender: &mut MessageSender<M>) -> (receipt:
    oneshot::Receiver<()>)
    requires
        call_requires(convert, (event,)),
    ensures
        final(sender)@.len() == old(sender)@.len() + 1,
        final(sender)@.drop_last() == old(sender)@,
        call_ensures(convert, (event,), final(sender)@.last().msg),
        messages(final(sender)@) == messages(old(sender)@).push(final(sender)@.last().msg),
{
    let msg = convert(event);
    msg.dispatch(sender)
}

} // verus!
