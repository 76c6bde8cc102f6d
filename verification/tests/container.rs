use afterglow::container::{Container, LifeCycle, Step};
use afterglow::mailbox::Mailbox;
use afterglow::messenger::{consume, MessageSender, Messenger, RenderSender};
use afterglow::renderer::Renderer;

#[derive(Clone, Debug, PartialEq)]
struct Tape {
    notes: Vec<u32>,
    greeted: bool,
}

enum Record {
    /// Writes the number down; the view goes stale.
    Note(u32),
    /// Writes the number down; the view stays as it is.
    Quiet(u32),
}

impl Messenger for Record {
    type Target = Tape;

    fn updated(self, target: Tape) -> Tape {
        let mut next = target;
        match self {
            Record::Note(n) | Record::Quiet(n) => next.notes.push(n),
        }
        next
    }

    fn rerenders(self, _target: Tape) -> bool {
        matches!(self, Record::Note(_))
    }

    fn update(self, target: &mut Tape, _sender: &mut MessageSender<Record>, _render_tx: &mut RenderSender) -> bool {
        match self {
            Record::Note(n) => {
                target.notes.push(n);
                true
            }
            Record::Quiet(n) => {
                target.notes.push(n);
                false
            }
        }
    }
}

impl LifeCycle for Tape {
    type Message = Record;
    type Handler = ();

    fn initial() -> Tape {
        Tape { notes: Vec::new(), greeted: false }
    }

    fn new(_render_tx: &mut RenderSender) -> Tape {
        Tape { notes: Vec::new(), greeted: false }
    }

    fn mounted(_sender: &mut MessageSender<Record>, _render_tx: &mut RenderSender, _handlers: &mut Vec<()>) {}

    fn destroyed(&self, _sender: &MessageSender<Record>, _render_tx: &mut RenderSender) -> usize {
        0
    }

    fn rendererd(&self, _sender: &mut MessageSender<Record>, _render_tx: &mut RenderSender) {}
}

struct Lines;

impl Renderer for Lines {
    type Target = Tape;
    type Node = String;

    fn drawn(&self, target: Tape) -> String {
        format!("{:?}", target.notes)
    }

    fn blank(&self) -> String {
        String::new()
    }

    fn view(&self, target: &Tape) -> String {
        format!("{:?}", target.notes)
    }

    fn template(&self) -> String {
        String::new()
    }
}

/// A container whose first render pass has been covered, so that the
/// consumer takes messages.
fn ready(render_tx: &mut RenderSender) -> Container<Tape, Lines> {
    let mut container = Container::default(Lines, render_tx);
    assert!(container.rendered(render_tx));
    container
}

/// Fires the signal of an applied message. The result is what the message
/// answered, and whether its sender was still listening.
fn applied(step: Step) -> (bool, bool) {
    match step {
        Step::Applied { done, rerender } => (rerender, done.send(()).is_ok()),
        Step::Idle => panic!("nothing waited"),
        Step::Waiting => panic!("the consumer waits for a render pass"),
        Step::Blocked => panic!("the state is held"),
    }
}

#[test]
fn new_container_asks_for_first_pass_and_waits() {
    let mut render_tx: RenderSender = Mailbox::new();
    let mut container = Container::new(Tape::initial(), Lines, &mut render_tx);
    assert_eq!(render_tx.len(), 1);
    assert!(container.waiting);
    assert!(!container.locked);
    assert!(container.sender.is_empty());
    assert!(container.receipt.is_some());
    let _ = Record::Quiet(1).dispatch(&mut container.sender);
    assert!(matches!(container.process_next(&mut render_tx), Step::Waiting));
    assert_eq!(container.data.notes, Vec::<u32>::new());
    assert_eq!(container.sender.len(), 1);
}

#[test]
fn default_container_holds_fresh_state() {
    let mut render_tx: RenderSender = Mailbox::new();
    let container: Container<Tape, Lines> = Container::default(Lines, &mut render_tx);
    assert_eq!(container.data, Tape::initial());
    assert_eq!(render_tx.len(), 1);
}

#[test]
fn take_receipt_hands_the_receipt_out_once() {
    let mut render_tx: RenderSender = Mailbox::new();
    let mut container = Container::new(Tape::initial(), Lines, &mut render_tx);
    let mut receipt = container.take_receipt().expect("the first request has a receipt");
    assert!(container.take_receipt().is_none());
    assert!(container.waiting);
    assert_eq!(receipt.try_recv(), Ok(None));
    let request = render_tx.recv().expect("the first request waits");
    assert!(request.done.send(()).is_ok());
    assert_eq!(receipt.try_recv(), Ok(Some(())));
}

#[test]
fn messages_are_applied_in_dispatch_order() {
    let mut render_tx: RenderSender = Mailbox::new();
    let mut container = ready(&mut render_tx);
    let _ = Record::Quiet(1).dispatch(&mut container.sender);
    let _ = Record::Quiet(2).dispatch(&mut container.sender);
    let _ = Record::Quiet(3).dispatch(&mut container.sender);
    assert_eq!(applied(container.process_next(&mut render_tx)), (false, false));
    assert_eq!(container.data.notes, vec![1]);
    assert_eq!(applied(container.process_next(&mut render_tx)), (false, false));
    assert_eq!(container.data.notes, vec![1, 2]);
    assert_eq!(applied(container.process_next(&mut render_tx)), (false, false));
    assert_eq!(container.data.notes, vec![1, 2, 3]);
    assert!(matches!(container.process_next(&mut render_tx), Step::Idle));
    assert_eq!(container.data.notes, vec![1, 2, 3]);
}

#[test]
fn acknowledged_dispatch_means_state_changed() {
    let mut render_tx: RenderSender = Mailbox::new();
    let mut container = ready(&mut render_tx);
    for i in 0..1000u32 {
        let mut receipt = Record::Quiet(i).dispatch(&mut container.sender);
        assert_eq!(receipt.try_recv(), Ok(None));
        assert_eq!(container.data.notes.len(), i as usize);
        assert_eq!(applied(container.process_next(&mut render_tx)), (false, true));
        assert_eq!(receipt.try_recv(), Ok(Some(())));
        assert_eq!(container.data.notes.len(), i as usize + 1);
        assert_eq!(container.data.notes[i as usize], i);
    }
}

#[test]
fn stale_view_files_one_request_and_the_consumer_goes_on() {
    let mut render_tx: RenderSender = Mailbox::new();
    let mut container = ready(&mut render_tx);
    let before = render_tx.len();
    let _ = Record::Note(7).dispatch(&mut container.sender);
    let _ = Record::Note(8).dispatch(&mut container.sender);
    assert_eq!(applied(container.process_next(&mut render_tx)), (true, false));
    assert_eq!(render_tx.len(), before + 1);
    assert!(!container.waiting);
    assert!(container.receipt.is_some());
    assert_eq!(container.data.notes, vec![7]);
    // No pass has been made, and the next message is applied all the same.
    assert_eq!(applied(container.process_next(&mut render_tx)), (true, false));
    assert_eq!(container.data.notes, vec![7, 8]);
    assert_eq!(render_tx.len(), before + 2);
    assert!(matches!(container.process_next(&mut render_tx), Step::Idle));
}

#[test]
fn receipt_of_a_request_resolves_when_the_request_is_served() {
    let mut render_tx: RenderSender = Mailbox::new();
    let mut container = ready(&mut render_tx);
    while render_tx.recv().is_some() {}
    let _ = Record::Note(1).dispatch(&mut container.sender);
    assert_eq!(applied(container.process_next(&mut render_tx)), (true, false));
    let mut receipt = container.take_receipt().expect("the request has a receipt");
    assert_eq!(receipt.try_recv(), Ok(None));
    let request = render_tx.recv().expect("the request waits");
    assert!(request.done.send(()).is_ok());
    assert_eq!(receipt.try_recv(), Ok(Some(())));
}

#[test]
fn first_pass_that_ends_while_the_state_is_held_is_made_up_for() {
    let mut render_tx: RenderSender = Mailbox::new();
    let mut container = Container::new(Tape::initial(), Lines, &mut render_tx);
    let _ = Record::Quiet(1).dispatch(&mut container.sender);
    assert!(container.try_lock());
    assert!(!container.rendered(&mut render_tx));
    assert!(container.owed);
    assert!(container.waiting);
    assert!(matches!(container.process_next(&mut render_tx), Step::Waiting));
    assert!(container.unlock(&mut render_tx));
    assert!(!container.owed);
    assert!(!container.waiting);
    assert!(!container.locked);
    assert_eq!(applied(container.process_next(&mut render_tx)), (false, false));
    assert_eq!(container.data.notes, vec![1]);
}

#[test]
fn unlock_without_a_missed_pass_takes_no_notice() {
    let mut render_tx: RenderSender = Mailbox::new();
    let mut container = Container::new(Tape::initial(), Lines, &mut render_tx);
    assert!(container.try_lock());
    assert!(!container.unlock(&mut render_tx));
    assert!(container.waiting);
    assert!(!container.locked);
}

#[test]
fn quiet_message_files_no_request() {
    let mut render_tx: RenderSender = Mailbox::new();
    let mut container = ready(&mut render_tx);
    let before = render_tx.len();
    let _ = Record::Quiet(1).dispatch(&mut container.sender);
    assert_eq!(applied(container.process_next(&mut render_tx)), (false, false));
    assert_eq!(render_tx.len(), before);
    assert!(!container.waiting);
}

#[test]
fn held_state_blocks_the_consumer_and_blanks_the_view() {
    let mut render_tx: RenderSender = Mailbox::new();
    let mut container = ready(&mut render_tx);
    let _ = Record::Quiet(5).dispatch(&mut container.sender);
    assert!(container.try_lock());
    assert!(!container.try_lock());
    assert!(matches!(container.process_next(&mut render_tx), Step::Blocked));
    assert_eq!(container.sender.len(), 1);
    assert_eq!(container.data.notes, Vec::<u32>::new());
    assert_eq!(container.render(), String::new());
    assert!(!container.unlock(&mut render_tx));
    assert_eq!(applied(container.process_next(&mut render_tx)), (false, false));
    assert_eq!(container.render(), "[5]");
}

#[test]
fn render_draws_the_current_state() {
    let mut render_tx: RenderSender = Mailbox::new();
    let mut container = ready(&mut render_tx);
    assert_eq!(container.render(), "[]");
    let _ = Record::Quiet(1).dispatch(&mut container.sender);
    let _ = Record::Quiet(2).dispatch(&mut container.sender);
    let _ = applied(container.process_next(&mut render_tx));
    let _ = applied(container.process_next(&mut render_tx));
    assert_eq!(container.render(), "[1, 2]");
}

#[test]
fn destroy_tells_the_state_unless_it_is_held() {
    let mut render_tx: RenderSender = Mailbox::new();
    let free = ready(&mut render_tx);
    assert_eq!(free.destroy(&mut render_tx), Some(0));
    let mut held = ready(&mut render_tx);
    assert!(held.try_lock());
    assert_eq!(held.destroy(&mut render_tx), None);
}

#[test]
fn consume_converts_the_event_and_dispatches() {
    let mut sender: MessageSender<Record> = Mailbox::new();
    let convert = |clicks: u32| Record::Quiet(clicks * 2);
    let mut receipt = consume(&convert, 21, &mut sender);
    assert_eq!(sender.len(), 1);
    assert_eq!(receipt.try_recv(), Ok(None));
    let envelope = sender.recv().expect("the message waits");
    assert!(matches!(envelope.msg, Record::Quiet(42)));
}

#[test]
fn dropped_receipt_is_not_heard() {
    let mut render_tx: RenderSender = Mailbox::new();
    let mut container = ready(&mut render_tx);
    let receipt = Record::Quiet(1).dispatch(&mut container.sender);
    drop(receipt);
    assert_eq!(applied(container.process_next(&mut render_tx)), (false, false));
    let _kept = Record::Quiet(2).dispatch(&mut container.sender);
    assert_eq!(applied(container.process_next(&mut render_tx)), (false, true));
}

#[test]
fn mailbox_hands_items_out_oldest_first() {
    let mut mailbox: Mailbox<u8> = Mailbox::new();
    assert!(mailbox.is_empty());
    assert_eq!(mailbox.recv(), None);
    mailbox.send(1);
    mailbox.send(2);
    mailbox.send(3);
    assert_eq!(mailbox.len(), 3);
    assert_eq!(mailbox.recv(), Some(1));
    assert_eq!(mailbox.recv(), Some(2));
    mailbox.send(4);
    assert_eq!(mailbox.recv(), Some(3));
    assert_eq!(mailbox.recv(), Some(4));
    assert_eq!(mailbox.recv(), None);
    assert!(mailbox.is_empty());
}

/// Something a component holds on to; it writes down when it is let go.
struct Subscription {
    name: &'static str,
    ended: std::rc::Rc<std::cell::RefCell<Vec<&'static str>>>,
}

impl Drop for Subscription {
    fn drop(&mut self) {
        self.ended.borrow_mut().push(self.name);
    }
}

struct Listener {
    heard: u32,
}

enum Heard {
    Once,
}

impl Messenger for Heard {
    type Target = Listener;

    fn updated(self, target: Listener) -> Listener {
        Listener { heard: target.heard + 1 }
    }

    fn rerenders(self, _target: Listener) -> bool {
        false
    }

    fn update(self, target: &mut Listener, _sender: &mut MessageSender<Heard>, _render_tx: &mut RenderSender) -> bool {
        target.heard += 1;
        false
    }
}

impl LifeCycle for Listener {
    type Message = Heard;
    type Handler = Subscription;

    fn initial() -> Listener {
        Listener { heard: 0 }
    }

    fn new(_render_tx: &mut RenderSender) -> Listener {
        Listener { heard: 0 }
    }

    fn mounted(_sender: &mut MessageSender<Heard>, _render_tx: &mut RenderSender, _handlers: &mut Vec<Subscription>) {}

    fn destroyed(&self, _sender: &MessageSender<Heard>, _render_tx: &mut RenderSender) -> usize {
        0
    }

    fn rendererd(&self, _sender: &mut MessageSender<Heard>, _render_tx: &mut RenderSender) {}
}

struct Ear;

impl Renderer for Ear {
    type Target = Listener;
    type Node = u32;

    fn drawn(&self, target: Listener) -> u32 {
        target.heard
    }

    fn blank(&self) -> u32 {
        u32::MAX
    }

    fn view(&self, target: &Listener) -> u32 {
        target.heard
    }

    fn template(&self) -> u32 {
        u32::MAX
    }
}

#[test]
fn what_the_component_holds_ends_with_the_container() {
    let ended = std::rc::Rc::new(std::cell::RefCell::new(Vec::new()));
    let mut render_tx: RenderSender = Mailbox::new();
    let mut container: Container<Listener, Ear> = Container::default(Ear, &mut render_tx);
    container.handlers.push(Subscription { name: "click", ended: ended.clone() });
    container.handlers.push(Subscription { name: "key", ended: ended.clone() });
    assert!(container.rendered(&mut render_tx));
    let _ = Heard::Once.dispatch(&mut container.sender);
    assert_eq!(applied(container.process_next(&mut render_tx)), (false, false));
    assert_eq!(container.render(), 1);
    assert_eq!(container.handlers.len(), 2);
    assert!(ended.borrow().is_empty());
    assert_eq!(container.destroy(&mut render_tx), Some(0));
    assert_eq!(*ended.borrow(), vec!["click", "key"]);
}

/// A state that nests a container and passes the word on when it goes away.
struct Nest {
    inner: Container<Witness, Eye>,
}

struct Witness {
    gone: std::rc::Rc<std::cell::RefCell<Vec<&'static str>>>,
}

enum Never {}

impl Messenger for Never {
    type Target = Witness;

    fn updated(self, target: Witness) -> Witness {
        target
    }

    fn rerenders(self, _target: Witness) -> bool {
        false
    }

    fn update(self, _target: &mut Witness, _sender: &mut MessageSender<Never>, _render_tx: &mut RenderSender) -> bool {
        false
    }
}

impl LifeCycle for Witness {
    type Message = Never;
    type Handler = ();

    fn initial() -> Witness {
        Witness { gone: std::rc::Rc::new(std::cell::RefCell::new(Vec::new())) }
    }

    fn new(_render_tx: &mut RenderSender) -> Witness {
        Witness::initial()
    }

    fn mounted(_sender: &mut MessageSender<Never>, _render_tx: &mut RenderSender, _handlers: &mut Vec<()>) {}

    fn destroyed(&self, _sender: &MessageSender<Never>, _render_tx: &mut RenderSender) -> usize {
        self.gone.borrow_mut().push("inner");
        0
    }

    fn rendererd(&self, _sender: &mut MessageSender<Never>, _render_tx: &mut RenderSender) {}
}

struct Eye;

impl Renderer for Eye {
    type Target = Witness;
    type Node = ();

    fn drawn(&self, _target: Witness) {}

    fn blank(&self) {}

    fn view(&self, _target: &Witness) {}

    fn template(&self) {}
}

enum Hush {}

impl Messenger for Hush {
    type Target = Nest;

    fn updated(self, target: Nest) -> Nest {
        target
    }

    fn rerenders(self, _target: Nest) -> bool {
        false
    }

    fn update(self, _target: &mut Nest, _sender: &mut MessageSender<Hush>, _render_tx: &mut RenderSender) -> bool {
        false
    }
}

impl LifeCycle for Nest {
    type Message = Hush;
    type Handler = ();

    fn initial() -> Nest {
        let mut render_tx: RenderSender = Mailbox::new();
        Nest::new(&mut render_tx)
    }

    fn new(render_tx: &mut RenderSender) -> Nest {
        Nest { inner: Container::default(Eye, render_tx) }
    }

    fn mounted(_sender: &mut MessageSender<Hush>, _render_tx: &mut RenderSender, _handlers: &mut Vec<()>) {}

    fn nested(&self) -> usize {
        if self.inner.locked {
            0
        } else {
            1 + self.inner.data.nested()
        }
    }

    fn destroyed(&self, _sender: &MessageSender<Hush>, render_tx: &mut RenderSender) -> usize {
        let passed = match self.inner.destroyed(render_tx) {
            Some(below) => 1 + below,
            None => 0,
        };
        self.inner.data.gone.borrow_mut().push("outer");
        passed
    }

    fn rendererd(&self, _sender: &mut MessageSender<Hush>, _render_tx: &mut RenderSender) {}
}

struct Shell;

impl Renderer for Shell {
    type Target = Nest;
    type Node = ();

    fn drawn(&self, _target: Nest) {}

    fn blank(&self) {}

    fn view(&self, _target: &Nest) {}

    fn template(&self) {}
}

#[test]
fn nested_container_is_told_when_its_owner_goes_away() {
    let mut render_tx: RenderSender = Mailbox::new();
    let outer: Container<Nest, Shell> = Container::default(Shell, &mut render_tx);
    // The nested container asked for its first pass, and so did its owner.
    assert_eq!(render_tx.len(), 2);
    let gone = outer.data.inner.data.gone.clone();
    assert!(gone.borrow().is_empty());
    assert_eq!(outer.destroy(&mut render_tx), Some(1));
    assert_eq!(*gone.borrow(), vec!["inner", "outer"]);
}

#[test]
fn held_nested_container_is_not_told() {
    let mut render_tx: RenderSender = Mailbox::new();
    let mut outer: Container<Nest, Shell> = Container::default(Shell, &mut render_tx);
    assert!(outer.data.inner.try_lock());
    let gone = outer.data.inner.data.gone.clone();
    assert_eq!(outer.destroy(&mut render_tx), Some(0));
    assert_eq!(*gone.borrow(), vec!["outer"]);
}
