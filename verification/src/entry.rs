//! The render coordinator: owner of the mounted root.
//!
//! An entry owns one mounted root container, the mailbox in which render
//! requests arrive, and the mailbox in which control messages arrive. Two
//! loops run over it. The render loop accepts render requests and asks the
//! control loop for a pass, once for any number of requests that arrive
//! before the pass begins. The control loop makes the passes and, when it is
//! told to eject, tears the root down and stops.

use crate::completion::completion_pair;
use crate::container::{filed_n, Container, LifeCycle, Step};
use crate::mailbox::Mailbox;
use crate::messenger::{messages, Messenger, RenderRequest, RenderSender};
use crate::renderer::Renderer;
use futures::channel::oneshot;
use vstd::prelude::*;

verus! {

/// A control message for the root.
pub enum EntryMessage {
    /// Make a render pass now.
    Render,
    /// Tear the mounted root down and stop; fire the signal when that is
    /// done.
    Eject(oneshot::Sender<()>),
}

/// Where an entry stands.
#[derive(Clone, Copy, Debug, PartialEq, Eq, Structural)]
pub enum Stage {
    /// Nothing has been mounted yet.
    Unmounted,
    /// A root is mounted and no render pass is due.
    Idle,
    /// A root is mounted and the control loop has been asked for a pass.
    Pending,
    /// A render pass is in progress.
    Rendering,
    /// The root has been torn down. Nothing is rendered any more.
    Ejected,
    /// A render pass failed. Nothing is rendered any more.
    Failed,
}

/// The place in the document to which a root is attached.
pub enum MountPoint {
    /// The body of the document.
    Body,
    /// The element that carries the given id.
    Existing(String),
    /// A block that is made for the purpose, given the id and appended to
    /// the body.
    Created(String),
}

impl MountPoint {
    /// Whether `self` is the place for a root that is to be mounted at the
    /// element named by `id`, where `found` says whether the document has
    /// such an element. Without an id the root goes to the body. With an id
    /// it goes to the element of that id where there is one, and else to a
    /// block made for it.
    pub open spec fn chosen_for(self, id: Option<&str>, found: bool) -> bool {
        match id {
            None => self is Body,
            Some(name) => if found {
                self matches MountPoint::Existing(at) && at@ == name@
            } else {
                self matches MountPoint::Created(at) && at@ == name@
            },
        }
    }

    /// Chooses the place for a root.
    pub fn select(id: Option<&str>, found: bool) -> (block: MountPoint)
        ensures
            block.chosen_for(id, found),
    {
        match id {
            None => MountPoint::Body,
            Some(name) => {
                if found {
                    MountPoint::Existing(name.to_owned())
                } else {
                    MountPoint::Created(name.to_owned())
                }
            },
        }
    }
}

/// What a turn of the control loop came to.
pub enum Control {
    /// The loop does not run: nothing is mounted, or the root was ejected,
    /// or a pass failed.
    Stopped,
    /// A render pass is in progress; the loop takes no message before it
    /// has finished.
    Busy,
    /// No control message waits.
    Idle,
    /// A render pass is to be made now.
    Render,
    /// The root was torn down. `told` is nothing if the state of the root
    /// was not told that it goes away, and else the number of containers
    /// below the root that were told with it. `ack` is the signal that came
    /// with the request to eject: firing it tells the requester that the
    /// root and everything below it is gone.
    Ejected { told: Option<usize>, ack: oneshot::Sender<()> },
}

/// What the end of a render pass came to.
pub enum Pass {
    /// No pass was in progress.
    Ignored,
    /// The pass failed; the entry renders no more.
    Failed,
    /// The pass succeeded. `told` holds the signals of the requests that
    /// the pass covered, oldest request first: firing them tells the
    /// requesters that their requests have been served. `again` is whether
    /// another pass was asked for because requests arrived in the meantime.
    Done { again: bool, told: Vec<oneshot::Sender<()>> },
}

/// The completion signals of a queue of render requests, oldest first.
pub open spec fn signals(requests: Seq<RenderRequest>) -> Seq<oneshot::Sender<()>> {
    requests.map_values(|request: RenderRequest| request.done)
}

/// How many of the control messages in `controls` ask for a render pass.
pub open spec fn renders(controls: Seq<EntryMessage>) -> nat
    decreases controls.len(),
{
    if controls.len() == 0 {
        0
    } else {
        (if controls[0] is Render {
            1nat
        } else {
            0nat
        }) + renders(controls.drop_first())
    }
}

/// The render cycle of an entry, reduced to what decides how many passes
/// are made.
pub struct Cycle {
    /// Where the entry stands.
    pub stage: Stage,
    /// How many render requests have not been accepted yet.
    pub waiting: nat,
    /// How many accepted requests the next pass will cover.
    pub queued: nat,
    /// How many requests the pass in progress covers.
    pub covered: nat,
    /// How many passes the control loop has been asked for and has not
    /// begun.
    pub asked: nat,
}

impl Cycle {
    /// The cycle after `k` more render requests have arrived.
    pub open spec fn requests(self, k: nat) -> Cycle {
        Cycle { waiting: self.waiting + k, ..self }
    }

    /// The cycle after a turn of the render loop over a mounted root.
    pub open spec fn accept(self) -> Cycle {
        let asks = self.stage is Idle && self.waiting > 0;
        Cycle {
            stage: if asks {
                Stage::Pending
            } else {
                self.stage
            },
            waiting: 0,
            queued: self.queued + self.waiting,
            covered: self.covered,
            asked: if asks {
                self.asked + 1
            } else {
                self.asked
            },
        }
    }

    /// The cycle after the control loop has begun a pass that it was asked
    /// for.
    pub open spec fn begin(self) -> Cycle {
        Cycle {
            stage: Stage::Rendering,
            waiting: self.waiting,
            queued: 0,
            covered: self.covered + self.queued,
            asked: (self.asked - 1) as nat,
        }
    }

    /// The cycle after the pass in progress has succeeded.
    pub open spec fn finish(self) -> Cycle {
        let again = self.queued > 0;
        Cycle {
            stage: if again {
                Stage::Pending
            } else {
                Stage::Idle
            },
            waiting: self.waiting,
            queued: self.queued,
            covered: 0,
            asked: if again {
                self.asked + 1
            } else {
                self.asked
            },
        }
    }

    /// Whether the cycle is at rest: a root is mounted, no pass is due or in
    /// progress, and no request waits anywhere.
    pub open spec fn at_rest(self) -> bool {
        &&& self.stage is Idle
        &&& self.waiting == 0
        &&& self.queued == 0
        &&& self.covered == 0
        &&& self.asked == 0
    }
}

/// A control message at the end of the queue counts if it asks for a pass.
pub proof fn lemma_renders_push(controls: Seq<EntryMessage>, last: EntryMessage)
    ensures
        renders(controls.push(last)) == renders(controls) + (if last is Render {
            1nat
        } else {
            0nat
        }),
    decreases controls.len(),
{
    let all = controls.push(last);
    if controls.len() == 0 {
        assert(all[0] == last);
        assert(all.drop_first() == Seq::<EntryMessage>::empty());
        assert(renders(all.drop_first()) == 0);
    } else {
        assert(all[0] == controls[0]);
        assert(all.drop_first() == controls.drop_first().push(last));
        lemma_renders_push(controls.drop_first(), last);
    }
}

/// A burst of render requests costs one pass. From rest, any number of
/// requests that arrive before the render loop takes its turn make the
/// render loop ask for exactly one pass; that pass covers all of them, and
/// after it the cycle is at rest again.
pub proof fn lemma_burst_costs_one_pass(cycle: Cycle, k: nat)
    requires
        cycle.at_rest(),
        k >= 1,
    ensures
        cycle.requests(k).accept().asked == 1,
        cycle.requests(k).accept().stage is Pending,
        cycle.requests(k).accept().begin().covered == k,
        cycle.requests(k).accept().begin().finish() == cycle,
{
}

/// A burst of mutations costs one pass. From rest, whatever the consumer
/// of a container applies in any number of turns before the render loop
/// takes its turn, the render requests that it files make the render loop
/// ask for exactly one pass, if there are any; that pass covers all of
/// them, and after it the cycle is at rest again.
pub proof fn lemma_mutations_cost_one_pass<M: Messenger>(cycle: Cycle, state: M::Target, pending: Seq<M>, turns: nat)
    requires
        cycle.at_rest(),
    ensures
        ({
            let filed = filed_n(state, pending, turns);
            let accepted = cycle.requests(filed).accept();
            &&& filed == 0 ==> accepted == cycle
            &&& filed >= 1 ==> {
                &&& accepted.asked == 1
                &&& accepted.begin().covered == filed
                &&& accepted.begin().finish() == cycle
            }
        }),
{
}

/// Requests that arrive while a pass is due are covered by that pass: the
/// render loop asks for no further pass.
pub proof fn lemma_requests_join_due_pass(cycle: Cycle, k: nat)
    requires
        cycle.stage is Pending,
    ensures
        cycle.requests(k).accept().asked == cycle.asked,
        cycle.requests(k).accept().stage is Pending,
        cycle.requests(k).accept().begin().covered == cycle.covered + cycle.queued + cycle.waiting + k,
{
}

/// Requests that arrive while a pass is in progress cost one more pass,
/// however many they are, and none if there are none.
pub proof fn lemma_requests_during_pass(cycle: Cycle, k: nat)
    requires
        cycle.stage is Rendering,
        cycle.waiting == 0,
        cycle.queued == 0,
    ensures
        cycle.requests(k).accept().stage is Rendering,
        cycle.requests(k).accept().asked == cycle.asked,
        cycle.requests(k).accept().finish().asked == cycle.asked + (if k > 0 {
            1nat
        } else {
            0nat
        }),
        k == 0 ==> cycle.requests(k).accept().finish().stage is Idle,
        k > 0 ==> cycle.requests(k).accept().finish().stage is Pending,
{
}

/// The owner of one mounted root.
#[verifier::reject_recursive_types(T)]
pub struct Entry<T: LifeCycle, R: Renderer<Target = T>> {
    /// The render requests that have not been accepted yet, oldest first.
    pub render_tx: RenderSender,
    /// The control messages that wait, oldest first.
    pub msg_tx: Mailbox<EntryMessage>,
    /// The mounted root.
    pub root: Option<Container<T, R>>,
    /// Where the root is attached.
    pub block: Option<MountPoint>,
    /// Where the entry stands.
    pub stage: Stage,
    /// The signals of the accepted requests that the next pass will cover,
    /// oldest request first.
    pub queued: Vec<oneshot::Sender<()>>,
    /// The signals of the requests that the pass in progress covers, oldest
    /// request first.
    pub covered: Vec<oneshot::Sender<()>>,
}

impl<T: LifeCycle, R: Renderer<Target = T>> Default for Entry<T, R> {
    /// An entry with nothing mounted and nothing waiting.
    fn default() -> (entry: Self)
        ensures
            entry.stage is Unmounted,
            entry.root is None,
            entry.block is None,
            entry.render_tx@.len() == 0,
            entry.msg_tx@.len() == 0,
            entry.queued@.len() == 0,
            entry.covered@.len() == 0,
    {
        Entry::new()
    }
}

impl<T: LifeCycle, R: Renderer<Target = T>> Entry<T, R> {
    /// Whether a root is mounted and the loops run.
    pub open spec fn live(&self) -> bool {
        self.stage is Idle || self.stage is Pending || self.stage is Rendering
    }

    /// The render cycle of the entry.
    pub open spec fn cycle(&self) -> Cycle {
        Cycle {
            stage: self.stage,
            waiting: self.render_tx@.len(),
            queued: self.queued@.len(),
            covered: self.covered@.len(),
            asked: renders(self.msg_tx@),
        }
    }

    /// Whether the entry is what mounting a fresh component leaves: a root
    /// in the state of a fresh component, drawn by `renderer`, attached at
    /// the place chosen for `id`, with its greetings waiting and its first
    /// render pass asked for, and nothing else under way.
    pub open spec fn fresh(&self, id: Option<&str>, found: bool, renderer: R) -> bool {
        &&& self.stage is Idle
        &&& self.block matches Some(block) && block.chosen_for(id, found)
        &&& self.root matches Some(root) && {
            &&& root.data == T::initial()
            &&& root.renderer == renderer
            &&& root.pending() == T::greetings()
            &&& !root.locked
            &&& root.waiting
            &&& !root.owed
        }
        &&& self.render_tx@.len() >= 1
        &&& self.msg_tx@.len() == 0
        &&& self.queued@.len() == 0
        &&& self.covered@.len() == 0
    }

    /// What tearing down the root comes to: nothing if there is no root or
    /// if its state is held by someone else, for then no state is told; else
    /// the number of containers below the root that are told with it.
    pub open spec fn parting(&self) -> Option<usize> {
        match self.root {
            Some(root) => root.parting(),
            None => None,
        }
    }

    /// Whether `after` is the entry with one more control message waiting,
    /// which tells it to eject.
    pub open spec fn told_to_eject(&self, after: Self) -> bool {
        &&& after.msg_tx@.len() == self.msg_tx@.len() + 1
        &&& after.msg_tx@.drop_last() == self.msg_tx@
        &&& after.msg_tx@.last() is Eject
        &&& after.render_tx == self.render_tx
        &&& after.root == self.root
        &&& after.block == self.block
        &&& after.stage == self.stage
        &&& after.queued == self.queued
        &&& after.covered == self.covered
    }

    /// An entry with nothing mounted and nothing waiting.
    pub fn new() -> (entry: Self)
        ensures
            entry.stage is Unmounted,
            entry.root is None,
            entry.block is None,
            entry.render_tx@.len() == 0,
            entry.msg_tx@.len() == 0,
            entry.queued@.len() == 0,
            entry.covered@.len() == 0,
    {
        Entry {
            render_tx: Mailbox::new(),
            msg_tx: Mailbox::new(),
            root: None,
            block: None,
            stage: Stage::Unmounted,
            queued: Vec::new(),
            covered: Vec::new(),
        }
    }

    /// Mounts a root: builds the root container around `data` and starts the
    /// two loops. The root asks for its first render pass.
    pub fn mount_vdom(&mut self, data: T, block: MountPoint, renderer: R)
        requires
            old(self).stage is Unmounted,
        ensures
            final(self).stage is Idle,
            final(self).block == Some(block),
            final(self).root matches Some(root) && {
                &&& root.data == data
                &&& root.renderer == renderer
                &&& root.pending() == T::greetings()
                &&& !root.locked
                &&& root.waiting
                &&& !root.owed
            },
            final(self).render_tx@.len() == old(self).render_tx@.len() + 1,
            final(self).render_tx@.drop_last() == old(self).render_tx@,
            final(self).msg_tx == old(self).msg_tx,
            final(self).queued == old(self).queued,
            final(self).covered == old(self).covered,
    {
        let root = Container::new(data, renderer, &mut self.render_tx);
        self.root = Some(root);
        self.block = Some(block);
        self.stage = Stage::Idle;
    }

    /// Builds an entry for a fresh component and mounts it. `id` names the
    /// element to mount at and `found` says whether the document has it.
    pub fn init_app(id: Option<&str>, found: bool, renderer: R) -> (entry: Self)
        ensures
            entry.fresh(id, found, renderer),
    {
        let mut entry = Entry::new();
        let block = MountPoint::select(id, found);
        let data = T::new(&mut entry.render_tx);
        entry.mount_vdom(data, block, renderer);
        entry
    }

    /// One turn of the render loop: accepts every render request that
    /// waits.
    ///
    /// While a root is mounted, the signals of the accepted requests queue up
    /// for the next pass, and the control loop is asked for a pass if none is
    /// due or in progress; the result says whether it was asked. Before
    /// anything is mounted the requests stay where they are. Once the entry
    /// renders no more they are dropped.
    pub fn handle_render(&mut self) -> (asked: bool)
        ensures
            final(self).root == old(self).root,
            final(self).block == old(self).block,
            final(self).covered == old(self).covered,
            old(self).stage is Unmounted ==> {
                &&& !asked
                &&& final(self).render_tx == old(self).render_tx
                &&& final(self).msg_tx == old(self).msg_tx
                &&& final(self).queued == old(self).queued
                &&& final(self).stage == old(self).stage
            },
            old(self).stage is Ejected || old(self).stage is Failed ==> {
                &&& !asked
                &&& final(self).render_tx@.len() == 0
                &&& final(self).msg_tx == old(self).msg_tx
                &&& final(self).queued == old(self).queued
                &&& final(self).stage == old(self).stage
            },
            old(self).live() ==> {
                &&& asked == (old(self).stage is Idle && old(self).render_tx@.len() > 0)
                &&& final(self).render_tx@.len() == 0
                &&& final(self).queued@ == old(self).queued@ + signals(old(self).render_tx@)
                &&& final(self).msg_tx@ == if asked {
                    old(self).msg_tx@.push(EntryMessage::Render)
                } else {
                    old(self).msg_tx@
                }
                &&& final(self).stage == if asked {
                    Stage::Pending
                } else {
                    old(self).stage
                }
                &&& final(self).cycle() == old(self).cycle().accept()
            },
    {
        match self.stage {
            Stage::Unmounted => false,
            Stage::Ejected | Stage::Failed => {
                while !self.render_tx.is_empty()
                    invariant
                        self.root == old(self).root,
                        self.block == old(self).block,
                        self.covered == old(self).covered,
                        self.msg_tx == old(self).msg_tx,
                        self.queued == old(self).queued,
                        self.stage == old(self).stage,
                    decreases self.render_tx@.len(),
                {
                    let _ = self.render_tx.recv();
                }
                false
            },
            Stage::Idle | Stage::Pending | Stage::Rendering => {
                let asked = self.stage == Stage::Idle && !self.render_tx.is_empty();
                while !self.render_tx.is_empty()
                    invariant
                        self.root == old(self).root,
                        self.block == old(self).block,
                        self.covered == old(self).covered,
                        self.msg_tx == old(self).msg_tx,
                        self.stage == old(self).stage,
                        self.queued@ + signals(self.render_tx@) == old(self).queued@ + signals(old(self).render_tx@),
                    decreases self.render_tx@.len(),
                {
                    let ghost before = self.render_tx@;
                    let ghost queued = self.queued@;
                    let request = self.render_tx.recv();
                    match request {
                        Some(RenderRequest { done }) => {
                            self.queued.push(done);
                            assert(signals(before) == seq![done] + signals(before.drop_first()));
                            assert(queued.push(done) + signals(before.drop_first()) == queued + signals(before));
                        },
                        None => {},
                    }
                }
                if asked {
                    proof {
                        lemma_renders_push(self.msg_tx@, EntryMessage::Render);
                    }
                    self.msg_tx.send(EntryMessage::Render);
                    self.stage = Stage::Pending;
                }
                asked
            },
        }
    }

    /// One turn of the control loop.
    ///
    /// The loop runs while a root is mounted, and takes no message while a
    /// pass is in progress. `Render` begins a pass that covers every request
    /// accepted so far; the pass itself is made by the caller, who reports
    /// its end with `rendered`. `Eject` tears the root down, and with it
    /// the containers below it, then hands out the signal for the requester
    /// and stops the loop for good; the requests that were accepted and not
    /// yet covered are dropped.
    pub fn handle_message(&mut self) -> (control: Control)
        ensures
            final(self).block == old(self).block,
            final(self).render_tx@.len() >= old(self).render_tx@.len(),
            final(self).render_tx@.subrange(0, old(self).render_tx@.len() as int) == old(self).render_tx@,
            !(control is Ejected) ==> final(self).render_tx == old(self).render_tx,
            !old(self).live() ==> control is Stopped,
            old(self).stage is Rendering ==> control is Busy,
            old(self).live() && !(old(self).stage is Rendering) && old(self).msg_tx@.len() == 0 ==> control is Idle,
            control is Stopped || control is Busy || control is Idle ==> {
                &&& final(self).msg_tx == old(self).msg_tx
                &&& final(self).root == old(self).root
                &&& final(self).stage == old(self).stage
                &&& final(self).queued == old(self).queued
                &&& final(self).covered == old(self).covered
            },
            old(self).live() && !(old(self).stage is Rendering) && old(self).msg_tx@.len() > 0 ==> {
                &&& final(self).msg_tx@ == old(self).msg_tx@.drop_first()
                &&& match old(self).msg_tx@[0] {
                    EntryMessage::Render => {
                        &&& control is Render
                        &&& final(self).stage is Rendering
                        &&& final(self).root == old(self).root
                        &&& final(self).queued@.len() == 0
                        &&& final(self).covered@ == old(self).covered@ + old(self).queued@
                        &&& final(self).cycle() == old(self).cycle().begin()
                    },
                    EntryMessage::Eject(signal) => {
                        &&& control matches Control::Ejected { told, ack }
                        &&& ack == signal
                        &&& told == old(self).parting()
                        &&& final(self).stage is Ejected
                        &&& final(self).root is None
                        &&& final(self).queued@.len() == 0
                        &&& final(self).covered@.len() == 0
                    },
                }
            },
    {
        match self.stage {
            Stage::Unmounted | Stage::Ejected | Stage::Failed => {
                return Control::Stopped;
            },
            Stage::Rendering => {
                return Control::Busy;
            },
            Stage::Idle | Stage::Pending => {},
        }
        if self.msg_tx.is_empty() {
            return Control::Idle;
        }
        let message = self.msg_tx.recv();
        match message {
            None => Control::Idle,
            Some(EntryMessage::Render) => {
                self.stage = Stage::Rendering;
                self.covered.append(&mut self.queued);
                Control::Render
            },
            Some(EntryMessage::Eject(ack)) => {
                let told = match self.root.take() {
                    Some(root) => root.destroy(&mut self.render_tx),
                    None => None,
                };
                self.stage = Stage::Ejected;
                self.queued = Vec::new();
                self.covered = Vec::new();
                Control::Ejected { told, ack }
            },
        }
    }

    /// Reports the end of the render pass in progress; `ok` says whether the
    /// pass succeeded.
    ///
    /// After a pass that succeeded, the signals of the requests that the
    /// pass covered are handed out, and the root takes notice of the pass.
    /// If requests were accepted in the meantime, the control loop is asked
    /// for one more pass. After a pass that failed the entry renders no more.
    pub fn rendered(&mut self, ok: bool) -> (pass: Pass)
        ensures
            final(self).block == old(self).block,
            final(self).queued == old(self).queued,
            !(old(self).stage is Rendering) ==> pass is Ignored && *final(self) == *old(self),
            old(self).stage is Rendering && !ok ==> {
                &&& pass is Failed
                &&& final(self).stage is Failed
                &&& final(self).root == old(self).root
                &&& final(self).msg_tx == old(self).msg_tx
                &&& final(self).render_tx == old(self).render_tx
                &&& final(self).covered == old(self).covered
            },
            old(self).stage is Rendering && ok ==> {
                &&& pass matches Pass::Done { again, told }
                &&& again == (old(self).queued@.len() > 0)
                &&& told@ == old(self).covered@
                &&& final(self).covered@.len() == 0
                &&& final(self).render_tx@ == old(self).render_tx@
                &&& final(self).stage == if again {
                    Stage::Pending
                } else {
                    Stage::Idle
                }
                &&& final(self).msg_tx@ == if again {
                    old(self).msg_tx@.push(EntryMessage::Render)
                } else {
                    old(self).msg_tx@
                }
                &&& final(self).cycle() == old(self).cycle().finish()
                &&& (old(self).root is None) == (final(self).root is None)
                &&& old(self).root matches Some(before) ==> final(self).root matches Some(after) && {
                    &&& after.data == before.data
                    &&& after.renderer == before.renderer
                    &&& after.handlers == before.handlers
                    &&& after.receipt == before.receipt
                    &&& after.locked == before.locked
                    &&& before.locked ==> {
                        &&& after.sender == before.sender
                        &&& after.waiting == before.waiting
                        &&& after.owed
                    }
                    &&& !before.locked ==> before.noticed(after)
                }
            },
    {
        if self.stage != Stage::Rendering {
            return Pass::Ignored;
        }
        if !ok {
            self.stage = Stage::Failed;
            return Pass::Failed;
        }
        let mut told = Vec::new();
        core::mem::swap(&mut told, &mut self.covered);
        let root = self.root.take();
        match root {
            Some(mut root) => {
                let _ = root.rendered(&mut self.render_tx);
                self.root = Some(root);
            },
            None => {},
        }
        let again = self.queued.len() > 0;
        if again {
            proof {
                lemma_renders_push(self.msg_tx@, EntryMessage::Render);
            }
            self.msg_tx.send(EntryMessage::Render);
            self.stage = Stage::Pending;
        } else {
            self.stage = Stage::Idle;
        }
        Pass::Done { again, told }
    }

    /// Whether a root is mounted and the loops run.
    pub fn is_live(&self) -> (live: bool)
        ensures
            live == self.live(),
    {
        self.stage == Stage::Idle || self.stage == Stage::Pending || self.stage == Stage::Rendering
    }

    /// Asks the entry to eject: puts the request behind the control
    /// messages that wait. The result resolves once the root is gone.
    pub fn eject(&mut self) -> (receipt: oneshot::Receiver<()>)
        ensures
            old(self).told_to_eject(*final(self)),
    {
        let (ack, receipt) = completion_pair();
        self.msg_tx.send(EntryMessage::Eject(ack));
        assert(self.msg_tx@.drop_last() == old(self).msg_tx@);
        receipt
    }

    /// Does away with the entry. A root that is still there is torn down,
    /// and with it the containers below it: see [`Entry::parting`].
    pub fn dispose(self) -> (told: Option<usize>)
        ensures
            told == self.parting(),
    {
        let Entry { mut render_tx, msg_tx: _, root, block: _, stage: _, queued: _, covered: _ } = self;
        match root {
            Some(root) => root.destroy(&mut render_tx),
            None => None,
        }
    }

    /// One turn of the consumer of the root: see
    /// [`Container::processed`]. The result is nothing when no root is
    /// mounted.
    pub fn process_root(&mut self) -> (step: Option<Step>)
        ensures
            final(self).msg_tx == old(self).msg_tx,
            final(self).block == old(self).block,
            final(self).stage == old(self).stage,
            final(self).queued == old(self).queued,
            final(self).covered == old(self).covered,
            match old(self).root {
                None => step is None && *final(self) == *old(self),
                Some(before) => {
                    &&& step matches Some(step)
                    &&& final(self).root matches Some(after)
                    &&& before.processed(after, old(self).render_tx@, final(self).render_tx@, step)
                },
            },
    {
        let root = self.root.take();
        match root {
            Some(mut root) => {
                let step = root.process_next(&mut self.render_tx);
                self.root = Some(root);
                Some(step)
            },
            None => None,
        }
    }
}

} // verus!
