//! The bus: ordered broadcast to any number of containers.
//!
//! Containers subscribe to a bus through proxies. A message that is
//! published on the bus is handed to the proxy of every subscriber. A proxy
//! translates the message for its container; the translation may say that
//! the message is of no interest there. The bus takes up the next published
//! message only when every proxy is done with the current one: when its
//! container has applied the translation, or when there was nothing to
//! apply.

use crate::mailbox::Mailbox;
use crate::messenger::{messages, MessageSender, Messenger};
use futures::channel::oneshot;
use vstd::prelude::*;

verus! {

/// Where the proxy of a subscriber stands.
#[derive(Clone, Copy, Debug, PartialEq, Eq, Structural)]
pub enum Proxy {
    /// The subscription has been asked for and is not in force yet.
    Registering,
    /// The proxy is done with everything that was handed to it.
    Idle,
    /// The current message has been handed to the proxy and has not been
    /// translated yet.
    Waiting,
    /// The translation of the current message is on its way to the
    /// container, which has not applied it yet.
    Forwarded,
    /// The container is gone. Whatever is handed to the proxy counts as
    /// delivered.
    Detached,
}

impl Proxy {
    /// Whether the proxy is not done with the current message.
    pub open spec fn busy(self) -> bool {
        self is Waiting || self is Forwarded
    }

    /// The proxy after the subscriptions that were asked for have come into
    /// force.
    pub open spec fn admitted(self) -> Proxy {
        if self is Registering {
            Proxy::Idle
        } else {
            self
        }
    }

    /// The proxy after a message has been handed to every subscriber.
    pub open spec fn handed(self) -> Proxy {
        if self is Idle {
            Proxy::Waiting
        } else {
            self
        }
    }
}

/// Whether some proxy is not done with the current message.
pub open spec fn busy(txs: Seq<Proxy>) -> bool {
    exists|i: int| 0 <= i < txs.len() && (#[trigger] txs[i]).busy()
}

/// How many of the proxies are subscribers in force whose container is
/// there.
pub open spec fn listeners(txs: Seq<Proxy>) -> nat
    decreases txs.len(),
{
    if txs.len() == 0 {
        0
    } else {
        listeners(txs.drop_last()) + (if txs.last() is Idle {
            1nat
        } else {
            0nat
        })
    }
}

/// What a turn of the broadcast loop came to.
#[derive(Clone, Copy, Debug, PartialEq, Eq, Structural)]
pub enum Broadcast {
    /// No published message waits.
    Idle,
    /// Some proxy is not done with the current message; the next message
    /// stays where it is.
    Waiting,
    /// The oldest published message was handed to the given number of
    /// proxies.
    Sent { targets: usize },
}

/// What a turn of a proxy came to.
pub enum Proxied {
    /// Nothing was handed to the proxy.
    Idle,
    /// The message is of no interest to the container; the proxy is done
    /// with it.
    Skipped,
    /// The translation of the message was dispatched to the container. The
    /// receiving half resolves when the container has applied it.
    Forwarded(oneshot::Receiver<()>),
}

/// A publish and subscribe broadcaster.
pub struct Bus<T> {
    /// The published messages that wait, oldest first.
    pub sender: Mailbox<T>,
    /// The proxies of the subscribers, in the order in which they asked to
    /// subscribe. A proxy is known by its place.
    pub txs: Vec<Proxy>,
    /// The message that is being broadcast.
    pub current: Option<T>,
}

impl<T> Bus<T> {
    /// A bus without subscribers and without messages.
    pub fn new() -> (bus: Self)
        ensures
            bus.sender@.len() == 0,
            bus.txs@.len() == 0,
            bus.current is None,
    {
        Bus { sender: Mailbox::new(), txs: Vec::new(), current: None }
    }

    /// Whether the bus is in order: while some proxy is not done with the
    /// current message, there is a current message.
    pub open spec fn orderly(&self) -> bool {
        busy(self.txs@) ==> self.current is Some
    }

    /// Whether some proxy is not done with the current message.
    pub fn is_busy(&self) -> (b: bool)
        ensures
            b == busy(self.txs@),
    {
        let mut i: usize = 0;
        while i < self.txs.len()
            invariant
                i <= self.txs.len(),
                forall|j: int| 0 <= j < i ==> !(#[trigger] self.txs@[j]).busy(),
            decreases self.txs.len() - i,
        {
            if self.txs[i] == Proxy::Waiting || self.txs[i] == Proxy::Forwarded {
                return true;
            }
            i += 1;
        }
        false
    }

    /// Asks for a subscription. The result is the place of the proxy. The
    /// subscription comes into force with the next turn of the registration
    /// loop.
    pub fn mount_proxy(&mut self) -> (id: usize)
        ensures
            id == old(self).txs@.len(),
            final(self).txs@ == old(self).txs@.push(Proxy::Registering),
            final(self).sender == old(self).sender,
            final(self).current == old(self).current,
            busy(final(self).txs@) == busy(old(self).txs@),
    {
        let id = self.txs.len();
        self.txs.push(Proxy::Registering);
        proof {
            lemma_busy_push(old(self).txs@, Proxy::Registering);
        }
        id
    }

    /// One turn of the registration loop. The subscriptions that were asked
    /// for come into force, unless a broadcast is under way: then they wait
    /// for it to end. The result says whether the loop could take its turn.
    pub fn handle_register(&mut self) -> (done: bool)
        ensures
            done == !busy(old(self).txs@),
            final(self).sender == old(self).sender,
            final(self).current == old(self).current,
            final(self).txs@ == if done {
                old(self).txs@.map_values(|proxy: Proxy| proxy.admitted())
            } else {
                old(self).txs@
            },
            busy(final(self).txs@) == busy(old(self).txs@),
    {
        if self.is_busy() {
            return false;
        }
        let mut i: usize = 0;
        while i < self.txs.len()
            invariant
                i <= self.txs.len(),
                self.txs@.len() == old(self).txs@.len(),
                self.sender == old(self).sender,
                self.current == old(self).current,
                forall|j: int| 0 <= j < i ==> self.txs@[j] == (#[trigger] old(self).txs@[j]).admitted(),
                forall|j: int| i <= j < self.txs@.len() ==> self.txs@[j] == old(self).txs@[j],
            decreases self.txs.len() - i,
        {
            if self.txs[i] == Proxy::Registering {
                self.txs.set(i, Proxy::Idle);
            }
            i += 1;
        }
        true
    }

    /// Publishes `msg`: puts it behind the published messages that wait.
    pub fn publish(&mut self, msg: T)
        ensures
            final(self).sender@ == old(self).sender@.push(msg),
            final(self).txs == old(self).txs,
            final(self).current == old(self).current,
    {
        self.sender.send(msg);
    }

    /// Whether `after` and `broadcast` are what a turn of the broadcast
    /// loop makes of the bus `self`.
    ///
    /// While some proxy is not done with the current message, nothing
    /// changes: the next message is handed to nobody. Otherwise the oldest
    /// published message becomes the current message and is handed to the
    /// proxy of every subscriber that is in force and whose container is
    /// there. A message that finds no such subscriber is dropped.
    pub open spec fn broadcasts(self, after: Self, broadcast: Broadcast) -> bool {
        &&& busy(self.txs@) ==> broadcast is Waiting
        &&& !busy(self.txs@) && self.sender@.len() == 0 ==> broadcast is Idle
        &&& broadcast is Waiting || broadcast is Idle ==> {
            &&& after.sender == self.sender
            &&& after.txs == self.txs
            &&& after.current == self.current
        }
        &&& !busy(self.txs@) && self.sender@.len() > 0 ==> {
            &&& broadcast matches Broadcast::Sent { targets }
            &&& targets == listeners(self.txs@)
            &&& after.sender@ == self.sender@.drop_first()
            &&& after.txs@ == self.txs@.map_values(|proxy: Proxy| proxy.handed())
            &&& after.current == if targets > 0 {
                Some(self.sender@[0])
            } else {
                None
            }
        }
    }

    /// One turn of the broadcast loop: see [`Bus::broadcasts`].
    pub fn handle_broadcast(&mut self) -> (broadcast: Broadcast)
        ensures
            old(self).broadcasts(*final(self), broadcast),
    {
        if self.is_busy() {
            return Broadcast::Waiting;
        }
        if self.sender.is_empty() {
            return Broadcast::Idle;
        }
        let msg = self.sender.recv();
        let mut targets: usize = 0;
        let mut i: usize = 0;
        assert(old(self).txs@.take(0) == Seq::<Proxy>::empty());
        while i < self.txs.len()
            invariant
                i <= self.txs.len(),
                self.txs@.len() == old(self).txs@.len(),
                self.sender@ == old(self).sender@.drop_first(),
                targets == listeners(old(self).txs@.take(i as int)),
                targets <= i,
                forall|j: int| 0 <= j < i ==> self.txs@[j] == (#[trigger] old(self).txs@[j]).handed(),
                forall|j: int| i <= j < self.txs@.len() ==> self.txs@[j] == old(self).txs@[j],
            decreases self.txs.len() - i,
        {
            assert(old(self).txs@.take(i + 1).drop_last() == old(self).txs@.take(i as int));
            if self.txs[i] == Proxy::Idle {
                self.txs.set(i, Proxy::Waiting);
                targets += 1;
            }
            i += 1;
        }
        assert(old(self).txs@.take(i as int) == old(self).txs@);
        assert(self.txs@ == old(self).txs@.map_values(|proxy: Proxy| proxy.handed()));
        self.current = if targets > 0 {
            msg
        } else {
            None
        };
        Broadcast::Sent { targets }
    }

    /// One turn of the proxy at place `id`, on behalf of its container.
    ///
    /// If the current message has been handed to the proxy, the proxy
    /// translates it with `translate`. A translation to nothing means that
    /// the message is of no interest to the container: the proxy is done
    /// with it at once. Any other translation is dispatched into `target`,
    /// the mailbox of the container, and the proxy is done only when the
    /// container has applied it, which `delivered` reports.
    pub fn init_proxy<M: Messenger, F: Fn(&T) -> Option<M>>(
        &mut self,
        id: usize,
        translate: &F,
        target: &mut MessageSender<M>,
    ) -> (proxied: Proxied)
        requires
            forall|msg: &T| call_requires(translate, (msg,)),
        ensures
            final(self).sender == old(self).sender,
            final(self).current == old(self).current,
            final(self).txs@.len() == old(self).txs@.len(),
            forall|i: int| 0 <= i < old(self).txs@.len() && i != id ==> final(self).txs@[i] == old(self).txs@[i],
            old(self).orderly() ==> final(self).orderly(),
            !(id < old(self).txs@.len() && old(self).txs@[id as int] is Waiting) ==> {
                &&& proxied is Idle
                &&& final(self).txs == old(self).txs
                &&& *final(target) == *old(target)
            },
            id < old(self).txs@.len() && old(self).txs@[id as int] is Waiting ==> match proxied {
                Proxied::Idle => false,
                Proxied::Skipped => {
                    &&& old(self).current matches Some(msg) ==> call_ensures(translate, (&msg,), None)
                    &&& final(self).txs@[id as int] is Idle
                    &&& *final(target) == *old(target)
                },
                Proxied::Forwarded(_) => {
                    &&& old(self).current matches Some(msg)
                    &&& final(self).txs@[id as int] is Forwarded
                    &&& final(target)@.len() == old(target)@.len() + 1
                    &&& final(target)@.drop_last() == old(target)@
                    &&& call_ensures(translate, (&msg,), Some(final(target)@.last().msg))
                    &&& messages(final(target)@) == messages(old(target)@).push(final(target)@.last().msg)
                },
            },
    {
        if id >= self.txs.len() {
            return Proxied::Idle;
        }
        if self.txs[id] != Proxy::Waiting {
            return Proxied::Idle;
        }
        let translated = match &self.current {
            Some(msg) => translate(msg),
            None => None,
        };
        match translated {
            None => {
                self.txs.set(id, Proxy::Idle);
                Proxied::Skipped
            },
            Some(inner) => {
                self.txs.set(id, Proxy::Forwarded);
                let receipt = inner.dispatch(target);
                Proxied::Forwarded(receipt)
            },
        }
    }

    /// Reports that the container of the proxy at place `id` has applied
    /// the translation that was dispatched to it: the proxy is done with the
    /// current message.
    pub fn delivered(&mut self, id: usize)
        ensures
            final(self).sender == old(self).sender,
            final(self).current == old(self).current,
            final(self).txs@ == if id < old(self).txs@.len() && old(self).txs@[id as int] is Forwarded {
                old(self).txs@.update(id as int, Proxy::Idle)
            } else {
                old(self).txs@
            },
            old(self).orderly() ==> final(self).orderly(),
    {
        if id < self.txs.len() && self.txs[id] == Proxy::Forwarded {
            self.txs.set(id, Proxy::Idle);
        }
    }

    /// Reports that the container of the proxy at place `id` is gone. The
    /// proxy stays in the list. What was handed to it counts as delivered,
    /// and nothing is handed to it any more.
    pub fn detach(&mut self, id: usize)
        ensures
            final(self).sender == old(self).sender,
            final(self).current == old(self).current,
            final(self).txs@ == if id < old(self).txs@.len() {
                old(self).txs@.update(id as int, Proxy::Detached)
            } else {
                old(self).txs@
            },
            old(self).orderly() ==> final(self).orderly(),
    {
        if id < self.txs.len() {
            self.txs.set(id, Proxy::Detached);
            proof {
                if busy(self.txs@) {
                    let i = choose|i: int| 0 <= i < self.txs@.len() && (#[trigger] self.txs@[i]).busy();
                    assert(old(self).txs@[i].busy());
                }
            }
        }
    }
}

/// A proxy that is not busy makes no list of proxies busy.
pub proof fn lemma_busy_push(txs: Seq<Proxy>, proxy: Proxy)
    requires
        !proxy.busy(),
    ensures
        busy(txs.push(proxy)) == busy(txs),
{
    let all = txs.push(proxy);
    if busy(txs) {
        let i = choose|i: int| 0 <= i < txs.len() && (#[trigger] txs[i]).busy();
        assert(all[i].busy());
    }
    if busy(all) {
        let i = choose|i: int| 0 <= i < all.len() && (#[trigger] all[i]).busy();
        assert(txs[i].busy());
    }
}

/// Where no proxy listens, handing a message out makes nobody busy.
pub proof fn lemma_no_listener_no_work(txs: Seq<Proxy>)
    requires
        !busy(txs),
        listeners(txs) == 0,
    ensures
        !busy(txs.map_values(|proxy: Proxy| proxy.handed())),
{
    let after = txs.map_values(|proxy: Proxy| proxy.handed());
    if busy(after) {
        let i = choose|i: int| 0 <= i < after.len() && (#[trigger] after[i]).busy();
        assert(!txs[i].busy());
        assert(txs[i] is Idle);
        lemma_listener_counts(txs, i);
    }
}

/// A turn of the broadcast loop leaves a bus that is in order in order.
pub proof fn lemma_broadcast_keeps_order<T>(before: Bus<T>, after: Bus<T>, broadcast: Broadcast)
    requires
        before.orderly(),
        before.broadcasts(after, broadcast),
    ensures
        after.orderly(),
{
    if !busy(before.txs@) && before.sender@.len() > 0 && listeners(before.txs@) == 0 {
        lemma_no_listener_no_work(before.txs@);
    }
}

/// Among proxies that hold a subscriber in force there is a listener.
pub proof fn lemma_listener_counts(txs: Seq<Proxy>, id: int)
    requires
        0 <= id < txs.len(),
        txs[id] is Idle,
    ensures
        listeners(txs) > 0,
    decreases txs.len(),
{
    if id < txs.len() - 1 {
        assert(txs.drop_last()[id] == txs[id]);
        lemma_listener_counts(txs.drop_last(), id);
    }
}

/// Published messages reach the subscribers in one order. While any
/// subscriber is not done with the current message, a turn of the broadcast
/// loop hands the next message to nobody: the message stays at the head of
/// the published messages, the current message stays the current message,
/// and no proxy is handed anything.
pub proof fn lemma_next_waits_for_all<T>(before: Bus<T>, after: Bus<T>, broadcast: Broadcast, id: int)
    requires
        before.broadcasts(after, broadcast),
        0 <= id < before.txs@.len(),
        before.txs@[id].busy(),
    ensures
        broadcast is Waiting,
        after.sender == before.sender,
        after.current == before.current,
        after.txs == before.txs,
{
}

/// A message that is handed out is handed to every subscriber in force
/// at once, and only when every proxy is done with the message before it.
pub proof fn lemma_broadcast_reaches_all<T>(before: Bus<T>, after: Bus<T>, broadcast: Broadcast, id: int)
    requires
        before.broadcasts(after, broadcast),
        broadcast is Sent,
        0 <= id < before.txs@.len(),
    ensures
        forall|i: int| 0 <= i < before.txs@.len() ==> !(#[trigger] before.txs@[i]).busy(),
        before.sender@.len() > 0,
        before.txs@[id] is Idle ==> after.txs@[id] is Waiting && after.current == Some(before.sender@[0]),
        !(before.txs@[id] is Idle) ==> after.txs@[id] == before.txs@[id],
{
    if before.txs@[id] is Idle {
        lemma_listener_counts(before.txs@, id);
    }
}

/// A bus as the containers see it: they subscribe and they publish.
pub struct BusService<T> {
    pub bus: Bus<T>,
}

impl<T> Default for BusService<T> {
    /// A service around a bus without subscribers and without messages.
    fn default() -> (service: Self)
        ensures
            service.bus.sender@.len() == 0,
            service.bus.txs@.len() == 0,
            service.bus.current is None,
    {
        BusService::new()
    }
}

impl<T> BusService<T> {
    /// A service around a bus without subscribers and without messages.
    pub fn new() -> (service: Self)
        ensures
            service.bus.sender@.len() == 0,
            service.bus.txs@.len() == 0,
            service.bus.current is None,
    {
        BusService { bus: Bus::new() }
    }

    /// Subscribes a container. The result is the place of its proxy.
    pub fn register(&mut self) -> (id: usize)
        ensures
            id == old(self).bus.txs@.len(),
            final(self).bus.txs@ == old(self).bus.txs@.push(Proxy::Registering),
            final(self).bus.sender == old(self).bus.sender,
            final(self).bus.current == old(self).bus.current,
    {
        self.bus.mount_proxy()
    }

    /// Publishes `msg` to every subscriber.
    pub fn publish(&mut self, msg: T)
        ensures
            final(self).bus.sender@ == old(self).bus.sender@.push(msg),
            final(self).bus.txs == old(self).bus.txs,
            final(self).bus.current == old(self).bus.current,
    {
        self.bus.publish(msg);
    }
}

} // verus!
