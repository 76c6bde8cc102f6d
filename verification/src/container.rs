//! Containers: one state, one mailbox, one consumer.

use crate::completion::completion_pair;
use crate::mailbox::Mailbox;
use crate::messenger::{messages, Envelope, MessageSender, Messenger, RenderRequest, RenderSender};
use crate::renderer::Renderer;
use futures::channel::oneshot;
use vstd::prelude::*;

verus! {

/// The life of a component's state: how it comes into being, and what it
/// does when it is mounted, after a render pass, and when it goes away.
pub trait LifeCycle: Sized {
    /// The messages that change this state.
    type Message: Messenger<Target = Self>;

    /// What the component holds on to for as long as it lives, such as
    /// its subscriptions to events of the outside world. Letting go of a
    /// value of this type ends what it stands for.
    type Handler;

    /// The state of a fresh component.
    spec fn initial() -> Self;

    /// The messages that a component sends to itself when it is mounted.
    open spec fn greetings() -> Seq<Self::Message> {
        Seq::empty()
    }

    /// The messages that a component in state `self` sends to itself after a
    /// render pass.
    open spec fn echoes(&self) -> Seq<Self::Message> {
        Seq::empty()
    }

    /// Builds the state of a fresh component. Components that it nests may
    /// file render requests in `render_tx`.
    fn new(render_tx: &mut RenderSender) -> (state: Self)
        ensures
            state == Self::initial(),
            final(render_tx)@.len() >= old(render_tx)@.len(),
            final(render_tx)@.subrange(0, old(render_tx)@.len() as int) == old(render_tx)@,
    ;

    /// Called once, when the container of the state has been built and
    /// before anything is applied. What the component puts into `handlers`
    /// is kept until the container goes away.
    fn mounted(
        sender: &mut MessageSender<Self::Message>,
        render_tx: &mut RenderSender,
        handlers: &mut Vec<Self::Handler>,
    )
        ensures
            messages(final(sender)@) == messages(old(sender)@) + Self::greetings(),
            final(sender)@.len() >= old(sender)@.len(),
            final(sender)@.subrange(0, old(sender)@.len() as int) == old(sender)@,
            final(render_tx)@ == old(render_tx)@,
    ;

    /// How many containers below a component in state `self` are told that
    /// they go away when the state is told: the containers that the state
    /// nests and whose state is not held, and those that they tell in turn.
    open spec fn nested(&self) -> usize {
        0
    }

    /// Called when the container goes away, with the last state. `sender`
    /// holds what was never applied. The state passes the word on to the
    /// containers that it nests, and says how many containers below it were
    /// told; it may file render requests in `render_tx`.
    fn destroyed(&self, sender: &MessageSender<Self::Message>, render_tx: &mut RenderSender) -> (passed: usize)
        ensures
            passed == self.nested(),
            final(render_tx)@.len() >= old(render_tx)@.len(),
            final(render_tx)@.subrange(0, old(render_tx)@.len() as int) == old(render_tx)@,
    ;

    /// Called after a render pass.
    fn rendererd(&self, sender: &mut MessageSender<Self::Message>, render_tx: &mut RenderSender)
        ensures
            messages(final(sender)@) == messages(old(sender)@) + self.echoes(),
            final(sender)@.len() >= old(sender)@.len(),
            final(sender)@.subrange(0, old(sender)@.len() as int) == old(sender)@,
            final(render_tx)@ == old(render_tx)@,
    ;
}

/// The state after the messages of `msgs` have been applied to `state`, one
/// after the other, first to last.
pub open spec fn applied<M: Messenger>(state: M::Target, msgs: Seq<M>) -> M::Target
    decreases msgs.len(),
{
    if msgs.len() == 0 {
        state
    } else {
        applied(msgs[0].updated(state), msgs.drop_first())
    }
}

/// The messages that the messages of `msgs` send to their own container
/// while they are applied to `state`, one after the other, first to last.
pub open spec fn echoed<M: Messenger>(state: M::Target, msgs: Seq<M>) -> Seq<M>
    decreases msgs.len(),
{
    if msgs.len() == 0 {
        Seq::empty()
    } else {
        msgs[0].follow_ups(state) + echoed(msgs[0].updated(state), msgs.drop_first())
    }
}

/// State and waiting messages after the consumer has applied the oldest
/// waiting message.
pub open spec fn consumed<M: Messenger>(state: M::Target, pending: Seq<M>) -> (M::Target, Seq<M>) {
    (pending[0].updated(state), pending.drop_first() + pending[0].follow_ups(state))
}

/// State and waiting messages after the consumer has taken `n` turns, each
/// of which applies the oldest waiting message if there is one.
pub open spec fn consumed_n<M: Messenger>(state: M::Target, pending: Seq<M>, n: nat) -> (M::Target, Seq<M>)
    decreases n,
{
    if n == 0 || pending.len() == 0 {
        (state, pending)
    } else {
        let next = consumed(state, pending);
        consumed_n(next.0, next.1, (n - 1) as nat)
    }
}

/// How many render requests the consumer files when it applies the oldest
/// waiting message: those that the message files itself, and one more if
/// the message says that the view may be stale.
pub open spec fn filed<M: Messenger>(state: M::Target, pending: Seq<M>) -> nat {
    pending[0].render_requests(state) + (if pending[0].rerenders(state) {
        1nat
    } else {
        0nat
    })
}

/// How many render requests the consumer files in `n` turns, each of which
/// applies the oldest waiting message if there is one.
pub open spec fn filed_n<M: Messenger>(state: M::Target, pending: Seq<M>, n: nat) -> nat
    decreases n,
{
    if n == 0 || pending.len() == 0 {
        0
    } else {
        let next = consumed(state, pending);
        filed(state, pending) + filed_n(next.0, next.1, (n - 1) as nat)
    }
}

/// What a turn of the consumer came to.
pub enum Step {
    /// No message waits.
    Idle,
    /// The first render pass has not been made yet; the consumer takes no
    /// message before it has.
    Waiting,
    /// The state is held by someone else; the oldest message stays where it
    /// is.
    Blocked,
    /// The oldest message was applied. `done` is the completion signal that
    /// came with the message: firing it tells the sender of the message that
    /// the state reflects the message. `rerender` is what the message
    /// answered.
    Applied { done: oneshot::Sender<()>, rerender: bool },
}

/// One piece of application state with the mailbox through which all changes
/// to it arrive, and the renderer that draws it.
#[verifier::reject_recursive_types(T)]
pub struct Container<T: LifeCycle, R: Renderer<Target = T>> {
    /// The state. It changes only when the consumer applies a message.
    pub data: T,
    /// The messages that wait to be applied, oldest first.
    pub sender: MessageSender<T::Message>,
    /// The renderer of the state.
    pub renderer: R,
    /// What the component holds on to for as long as the container lives.
    pub handlers: Vec<T::Handler>,
    /// Whether the state is held by someone other than the consumer.
    pub locked: bool,
    /// Whether the consumer waits for the first render pass.
    pub waiting: bool,
    /// Whether a render pass has ended while the state was held, so that
    /// the container has yet to take notice of it.
    pub owed: bool,
    /// The receiving half of the signal of the last render request, until
    /// it is taken out.
    pub receipt: Option<oneshot::Receiver<()>>,
}

impl<T: LifeCycle, R: Renderer<Target = T>> Container<T, R> {
    /// The messages that wait to be applied, oldest first.
    pub open spec fn pending(&self) -> Seq<T::Message> {
        messages(self.sender@)
    }

    /// What the end of the container's life comes to: nothing if the state
    /// is held by someone else, for then it is not told; else the number of
    /// containers below it that are told with it.
    pub open spec fn parting(&self) -> Option<usize> {
        if self.locked {
            None
        } else {
            Some(self.data.nested())
        }
    }

    /// Whether `after` is the container `self` after it has taken notice of
    /// a render pass: it does not wait for the first pass any more, it owes
    /// no notice, and what the state sends after a pass waits behind the
    /// messages that waited. Whether the state is held is left open.
    pub open spec fn noticed(self, after: Self) -> bool {
        &&& after.data == self.data
        &&& after.renderer == self.renderer
        &&& after.handlers == self.handlers
        &&& after.receipt == self.receipt
        &&& !after.waiting
        &&& !after.owed
        &&& after.pending() == self.pending() + self.data.echoes()
        &&& after.sender@.len() >= self.sender@.len()
        &&& after.sender@.subrange(0, self.sender@.len() as int) =~= self.sender@
    }

    /// Builds a container around `data`, lets the state greet, and starts
    /// the life of the container.
    pub fn new(data: T, renderer: R, render_tx: &mut RenderSender) -> (container: Self)
        ensures
            container.data == data,
            container.renderer == renderer,
            container.pending() == T::greetings(),
            !container.locked,
            container.waiting,
            !container.owed,
            container.receipt is Some,
            final(render_tx)@.len() == old(render_tx)@.len() + 1,
            final(render_tx)@.drop_last() == old(render_tx)@,
    {
        let mut container = Container {
            data,
            sender: Mailbox::new(),
            renderer,
            handlers: Vec::new(),
            locked: false,
            waiting: false,
            owed: false,
            receipt: None,
        };
        T::mounted(&mut container.sender, render_tx, &mut container.handlers);
        container.init_messenger(render_tx);
        container
    }

    /// Builds a container around the state of a fresh component.
    pub fn default(renderer: R, render_tx: &mut RenderSender) -> (container: Self)
        ensures
            container.data == T::initial(),
            container.renderer == renderer,
            container.pending() == T::greetings(),
            !container.locked,
            container.waiting,
            !container.owed,
            container.receipt is Some,
            final(render_tx)@.len() >= old(render_tx)@.len() + 1,
            final(render_tx)@.subrange(0, old(render_tx)@.len() as int) == old(render_tx)@,
    {
        let data = T::new(render_tx);
        Container::new(data, renderer, render_tx)
    }

    /// Starts the life of the container: asks for the first render pass.
    /// The consumer takes no message before that pass has finished.
    pub fn init_messenger(&mut self, render_tx: &mut RenderSender)
        ensures
            final(self).data == old(self).data,
            final(self).sender == old(self).sender,
            final(self).renderer == old(self).renderer,
            final(self).handlers == old(self).handlers,
            final(self).locked == old(self).locked,
            final(self).owed == old(self).owed,
            final(self).waiting,
            final(self).receipt is Some,
            final(render_tx)@.len() == old(render_tx)@.len() + 1,
            final(render_tx)@.drop_last() == old(render_tx)@,
    {
        let (done, receipt) = completion_pair();
        render_tx.send(RenderRequest { done });
        self.waiting = true;
        self.receipt = Some(receipt);
    }

    /// Hands out the receiving half of the signal of the last render
    /// request: it resolves when a render pass has covered the request.
    pub fn take_receipt(&mut self) -> (receipt: Option<oneshot::Receiver<()>>)
        ensures
            (receipt is Some) == (old(self).receipt is Some),
            final(self).receipt is None,
            final(self).data == old(self).data,
            final(self).sender == old(self).sender,
            final(self).renderer == old(self).renderer,
            final(self).handlers == old(self).handlers,
            final(self).locked == old(self).locked,
            final(self).waiting == old(self).waiting,
            final(self).owed == old(self).owed,
    {
        self.receipt.take()
    }

    /// Whether `after`, `requests_after` and `step` are what a turn of the
    /// consumer makes of the container `self` and of the render requests
    /// `requests` that wait at the render coordinator.
    ///
    /// While the container waits for its first render pass, or while
    /// nothing waits, or while the state is held by someone else, nothing
    /// changes. Otherwise the oldest waiting message is applied to the state
    /// and leaves the mailbox, its completion signal is handed out, and what
    /// the message sends to its own container queues up behind the messages
    /// that wait. If the message says that the view may be stale, a render
    /// request is filed behind the requests that the message filed itself.
    /// The consumer does not wait for that request to be served: with the
    /// request in the mailbox of the render coordinator, the next turn may
    /// apply the next message.
    pub open spec fn processed(
        self,
        after: Self,
        requests: Seq<RenderRequest>,
        requests_after: Seq<RenderRequest>,
        step: Step,
    ) -> bool {
        &&& after.renderer == self.renderer
        &&& after.handlers == self.handlers
        &&& after.locked == self.locked
        &&& after.waiting == self.waiting
        &&& after.owed == self.owed
        &&& requests_after.len() >= requests.len()
        &&& requests_after.subrange(0, requests.len() as int) =~= requests
        &&& self.waiting ==> step is Waiting
        &&& !self.waiting && self.pending().len() == 0 ==> step is Idle
        &&& !self.waiting && self.pending().len() > 0 && self.locked ==> step is Blocked
        &&& !self.waiting && self.pending().len() > 0 && !self.locked ==> step is Applied
        &&& !(step is Applied) ==> {
            &&& after.data == self.data
            &&& after.sender == self.sender
            &&& after.receipt == self.receipt
            &&& requests_after == requests
        }
        &&& step matches Step::Applied { done, rerender } ==> {
            let msg = self.pending()[0];
            &&& done == self.sender@[0].done
            &&& (after.data, after.pending()) == consumed(self.data, self.pending())
            &&& rerender == msg.rerenders(self.data)
            &&& rerender ==> after.receipt is Some
            &&& !rerender ==> after.receipt == self.receipt
            &&& requests_after.len() == requests.len() + filed(self.data, self.pending())
        }
    }

    /// One turn of the consumer: see [`Container::processed`]. The
    /// completion signal of a message leaves the container in the turn that
    /// applies the message, and in no other way.
    pub fn process_next(&mut self, render_tx: &mut RenderSender) -> (step: Step)
        ensures
            old(self).processed(*final(self), old(render_tx)@, final(render_tx)@, step),
    {
        if self.waiting {
            return Step::Waiting;
        }
        if self.sender.is_empty() {
            return Step::Idle;
        }
        if self.locked {
            return Step::Blocked;
        }
        let envelope = self.sender.recv();
        match envelope {
            None => Step::Idle,
            Some(envelope) => {
                let Envelope { msg, done } = envelope;
                let ghost rest = self.sender@;
                assert(messages(rest) == old(self).pending().drop_first());
                let rerender = msg.update(&mut self.data, &mut self.sender, render_tx);
                if rerender {
                    let (done, receipt) = completion_pair();
                    render_tx.send(RenderRequest { done });
                    self.receipt = Some(receipt);
                }
                Step::Applied { done, rerender }
            },
        }
    }

    /// Tells the container that a render pass has finished. Unless the
    /// state is held by someone else, the container takes notice of the
    /// pass at once: see [`Container::noticed`]. While the state is held the
    /// notice is owed, and is made up for when the state is let go. Passes
    /// that end while one notice is owed already are made up for by that
    /// one notice. The result says whether the container took notice now.
    pub fn rendered(&mut self, render_tx: &mut RenderSender) -> (noticed: bool)
        ensures
            noticed == !old(self).locked,
            final(self).locked == old(self).locked,
            final(render_tx)@ == old(render_tx)@,
            noticed ==> old(self).noticed(*final(self)),
            !noticed ==> {
                &&& final(self).data == old(self).data
                &&& final(self).sender == old(self).sender
                &&& final(self).renderer == old(self).renderer
                &&& final(self).handlers == old(self).handlers
                &&& final(self).receipt == old(self).receipt
                &&& final(self).waiting == old(self).waiting
                &&& final(self).owed
            },
    {
        if self.locked {
            self.owed = true;
            return false;
        }
        self.waiting = false;
        self.owed = false;
        self.data.rendererd(&mut self.sender, render_tx);
        true
    }

    /// Takes hold of the state for someone other than the consumer, unless
    /// it is held already. The result says whether the state was free.
    pub fn try_lock(&mut self) -> (acquired: bool)
        ensures
            acquired == !old(self).locked,
            final(self).locked,
            final(self).data == old(self).data,
            final(self).sender == old(self).sender,
            final(self).renderer == old(self).renderer,
            final(self).handlers == old(self).handlers,
            final(self).receipt == old(self).receipt,
            final(self).waiting == old(self).waiting,
            final(self).owed == old(self).owed,
    {
        let acquired = !self.locked;
        self.locked = true;
        acquired
    }

    /// Lets go of the state. If a render pass ended while the state was
    /// held, the container takes notice of it now: see
    /// [`Container::noticed`]. The result says whether it did.
    pub fn unlock(&mut self, render_tx: &mut RenderSender) -> (noticed: bool)
        ensures
            noticed == old(self).owed,
            !final(self).locked,
            final(render_tx)@ == old(render_tx)@,
            noticed ==> old(self).noticed(*final(self)),
            !noticed ==> {
                &&& final(self).data == old(self).data
                &&& final(self).sender == old(self).sender
                &&& final(self).renderer == old(self).renderer
                &&& final(self).handlers == old(self).handlers
                &&& final(self).receipt == old(self).receipt
                &&& final(self).waiting == old(self).waiting
                &&& !final(self).owed
            },
    {
        self.locked = false;
        if self.owed {
            self.waiting = false;
            self.owed = false;
            self.data.rendererd(&mut self.sender, render_tx);
            true
        } else {
            false
        }
    }

    /// The current view: what the renderer draws of the state, or the
    /// placeholder while the state is held by someone else. Rendering never
    /// waits for the state.
    pub fn render(&self) -> (node: R::Node)
        ensures
            node == if self.locked {
                self.renderer.blank()
            } else {
                self.renderer.drawn(self.data)
            },
    {
        if self.locked {
            self.renderer.template()
        } else {
            self.renderer.view(&self.data)
        }
    }

    /// Tells the state that the container goes away, unless the state is
    /// held by someone else. The result is nothing if the state was not
    /// told, and else the number of containers below this one that were
    /// told with it: see [`Container::parting`]. A state that nests
    /// containers passes the word on with this function.
    pub fn destroyed(&self, render_tx: &mut RenderSender) -> (told: Option<usize>)
        ensures
            told == self.parting(),
            final(render_tx)@.len() >= old(render_tx)@.len(),
            final(render_tx)@.subrange(0, old(render_tx)@.len() as int) == old(render_tx)@,
    {
        if self.locked {
            None
        } else {
            Some(self.data.destroyed(&self.sender, render_tx))
        }
    }

    /// Ends the life of the container. The state is told that it goes
    /// away unless it is held by someone else, and with it the containers
    /// below it: see [`Container::parting`]. Messages that still wait are
    /// dropped with the container, and so is what the component held on to.
    pub fn destroy(self, render_tx: &mut RenderSender) -> (told: Option<usize>)
        ensures
            told == self.parting(),
            final(render_tx)@.len() >= old(render_tx)@.len(),
            final(render_tx)@.subrange(0, old(render_tx)@.len() as int) == old(render_tx)@,
    {
        self.destroyed(render_tx)
    }
}

/// Messages are applied in the order in which they arrived: after as many
/// turns as `first` has messages, the state is the state after the messages
/// of `first`, applied first to last, whatever was sent behind them; what
/// was sent behind them still waits, followed by what the applied messages
/// sent themselves.
pub proof fn lemma_fifo_order<M: Messenger>(state: M::Target, first: Seq<M>, later: Seq<M>)
    ensures
        consumed_n(state, first + later, first.len()) == (applied(state, first), later + echoed(state, first)),
    decreases first.len(),
{
    if first.len() == 0 {
        assert(first + later == later);
        assert(later + echoed(state, first) == later);
    } else {
        let pending = first + later;
        let next = consumed(state, pending);
        assert(pending[0] == first[0]);
        assert(pending.drop_first() == first.drop_first() + later);
        let sent = first[0].follow_ups(state);
        assert(next.1 == first.drop_first() + (later + sent));
        lemma_fifo_order(next.0, first.drop_first(), later + sent);
        assert((later + sent) + echoed(next.0, first.drop_first()) == later + echoed(state, first));
    }
}

/// When the completion signal of the message at place `k` of the waiting
/// messages is handed out, the state reflects that message: the turn that
/// applies it is turn `k + 1`, and after that turn the state is the
/// message's update of the state after the `k` messages before it.
pub proof fn lemma_told_means_applied<M: Messenger>(state: M::Target, pending: Seq<M>, k: int)
    requires
        0 <= k < pending.len(),
    ensures
        consumed_n(state, pending, (k + 1) as nat).0 == pending[k].updated(applied(state, pending.take(k))),
{
    let first = pending.take(k + 1);
    let later = pending.skip(k + 1);
    assert(first + later == pending);
    lemma_fifo_order(state, first, later);
    lemma_applied_push(state, pending.take(k), pending[k]);
    assert(pending.take(k).push(pending[k]) == first);
}

/// Applying one more message at the end is updating the state that the
/// messages before it leave.
pub proof fn lemma_applied_push<M: Messenger>(state: M::Target, msgs: Seq<M>, last: M)
    ensures
        applied(state, msgs.push(last)) == last.updated(applied(state, msgs)),
    decreases msgs.len(),
{
    let all = msgs.push(last);
    if msgs.len() == 0 {
        assert(all.drop_first() == Seq::<M>::empty());
        assert(applied(last.updated(state), all.drop_first()) == last.updated(state));
    } else {
        assert(all[0] == msgs[0]);
        assert(all.drop_first() == msgs.drop_first().push(last));
        lemma_applied_push(msgs[0].updated(state), msgs.drop_first(), last);
    }
}

} // verus!
