//! Two small components: a table that counts clicks, and a flag that
//! flips.

use crate::completion::completion_pair;
use crate::container::LifeCycle;
use crate::entry::Entry;
use crate::messenger::{MessageSender, Messenger, RenderRequest, RenderSender};
use crate::renderer::Renderer;
use vstd::prelude::*;

verus! {

/// The state: how often the button was clicked, and a flag that every
/// click flips.
#[derive(Clone, Copy, Debug, PartialEq, Eq, Structural)]
pub struct Model {
    pub status: bool,
    pub clicked: i32,
}

impl Default for Model {
    /// The state of a fresh component.
    fn default() -> (state: Model)
        ensures
            state == (Model { status: false, clicked: 0 }),
    {
        Model { status: false, clicked: 0 }
    }
}

impl LifeCycle for Model {
    type Message = ClickMsg;

    type Handler = ();

    open spec fn initial() -> Model {
        Model { status: false, clicked: 0 }
    }

    fn new(render_tx: &mut RenderSender) -> (state: Model) {
        Model::default()
    }

    fn mounted(sender: &mut MessageSender<ClickMsg>, render_tx: &mut RenderSender, handlers: &mut Vec<()>) {
    }

    fn destroyed(&self, sender: &MessageSender<ClickMsg>, render_tx: &mut RenderSender) -> (passed: usize) {
        0
    }

    fn rendererd(&self, sender: &mut MessageSender<ClickMsg>, render_tx: &mut RenderSender) {
    }
}

/// The messages of the component.
#[derive(Clone, Copy, Debug, PartialEq, Eq, Structural)]
pub enum ClickMsg {
    /// The button was clicked.
    Clicked,
}

/// The count after one more click. The count wraps round at the largest
/// number that it can hold.
pub open spec fn next_count(clicked: i32) -> i32 {
    if clicked == i32::MAX {
        i32::MIN
    } else {
        (clicked + 1) as i32
    }
}

impl Messenger for ClickMsg {
    type Target = Model;

    open spec fn updated(self, target: Model) -> Model {
        Model { status: !target.status, clicked: next_count(target.clicked) }
    }

    open spec fn rerenders(self, target: Model) -> bool {
        true
    }

    fn update(self, target: &mut Model, sender: &mut MessageSender<ClickMsg>, render_tx: &mut RenderSender) -> (rerender:
        bool) {
        match self {
            ClickMsg::Clicked => {
                target.clicked = target.clicked.wrapping_add(1);
                target.status = !target.status;
                true
            },
        }
    }
}

/// What the table shows.
#[derive(Clone, Copy, Debug, PartialEq, Eq, Structural)]
pub struct Table {
    /// The cell that says how often the button was clicked.
    pub clicked: i32,
    /// The cell that shows the flag.
    pub status: bool,
}

/// What the button does.
#[derive(Clone, Copy, Debug, PartialEq, Eq, Structural)]
pub struct Button {
    /// The message that a click on the button dispatches.
    pub onclick: ClickMsg,
}

/// The whole page: the table above the button.
#[derive(Clone, Copy, Debug, PartialEq, Eq, Structural)]
pub struct Page {
    pub table: Table,
    pub button: Button,
}

/// Draws the state as a table.
#[derive(Clone, Copy, Debug, Default)]
pub struct TableView;

impl Renderer for TableView {
    type Target = Model;

    type Node = Option<Table>;

    open spec fn drawn(&self, target: Model) -> Option<Table> {
        Some(Table { clicked: target.clicked, status: target.status })
    }

    open spec fn blank(&self) -> Option<Table> {
        None
    }

    fn view(&self, target: &Model) -> (node: Option<Table>) {
        Some(Table { clicked: target.clicked, status: target.status })
    }

    fn template(&self) -> (node: Option<Table>) {
        None
    }
}

/// Draws the button that counts.
#[derive(Clone, Copy, Debug, Default)]
pub struct ButtonView;

impl Renderer for ButtonView {
    type Target = Model;

    type Node = Option<Button>;

    open spec fn drawn(&self, target: Model) -> Option<Button> {
        Some(Button { onclick: ClickMsg::Clicked })
    }

    open spec fn blank(&self) -> Option<Button> {
        None
    }

    fn view(&self, target: &Model) -> (node: Option<Button>) {
        Some(Button { onclick: ClickMsg::Clicked })
    }

    fn template(&self) -> (node: Option<Button>) {
        None
    }
}

/// Draws the whole page.
#[derive(Clone, Copy, Debug, Default)]
pub struct MainView;

impl Renderer for MainView {
    type Target = Model;

    type Node = Option<Page>;

    open spec fn drawn(&self, target: Model) -> Option<Page> {
        Some(
            Page {
                table: Table { clicked: target.clicked, status: target.status },
                button: Button { onclick: ClickMsg::Clicked },
            },
        )
    }

    open spec fn blank(&self) -> Option<Page> {
        None
    }

    fn view(&self, target: &Model) -> (node: Option<Page>) {
        let table = TableView.view(target);
        let button = ButtonView.view(target);
        match (table, button) {
            (Some(table), Some(button)) => Some(Page { table, button }),
            _ => None,
        }
    }

    fn template(&self) -> (node: Option<Page>) {
        None
    }
}

/// A flag. When it is mounted it flips itself twice.
#[derive(Clone, Copy, Debug, PartialEq, Eq, Structural)]
pub struct Flag {
    pub status: bool,
}

/// The messages of the flag.
#[derive(Clone, Copy, Debug, PartialEq, Eq, Structural)]
pub enum ClickEvents {
    /// Flips the flag; the view goes stale.
    Clicked,
    /// Leaves the flag alone and sends two clicks behind what waits.
    Twice,
    /// Leaves the flag alone and asks for a render pass by itself.
    Repaint,
}

impl Messenger for ClickEvents {
    type Target = Flag;

    open spec fn updated(self, target: Flag) -> Flag {
        match self {
            ClickEvents::Clicked => Flag { status: !target.status },
            _ => target,
        }
    }

    open spec fn rerenders(self, target: Flag) -> bool {
        self is Clicked
    }

    open spec fn follow_ups(self, target: Flag) -> Seq<ClickEvents> {
        match self {
            ClickEvents::Twice => seq![ClickEvents::Clicked, ClickEvents::Clicked],
            _ => Seq::empty(),
        }
    }

    open spec fn render_requests(self, target: Flag) -> nat {
        match self {
            ClickEvents::Repaint => 1,
            _ => 0,
        }
    }

    fn update(self, target: &mut Flag, sender: &mut MessageSender<ClickEvents>, render_tx: &mut RenderSender) -> (rerender:
        bool) {
        match self {
            ClickEvents::Clicked => {
                target.status = !target.status;
                true
            },
            ClickEvents::Twice => {
                let _ = ClickEvents::Clicked.dispatch(sender);
                let _ = ClickEvents::Clicked.dispatch(sender);
                false
            },
            ClickEvents::Repaint => {
                let (done, _) = completion_pair();
                render_tx.send(RenderRequest { done });
                false
            },
        }
    }
}

impl LifeCycle for Flag {
    type Message = ClickEvents;

    type Handler = ();

    open spec fn initial() -> Flag {
        Flag { status: true }
    }

    open spec fn greetings() -> Seq<ClickEvents> {
        seq![ClickEvents::Clicked, ClickEvents::Clicked]
    }

    fn new(render_tx: &mut RenderSender) -> (state: Flag) {
        Flag { status: true }
    }

    fn mounted(sender: &mut MessageSender<ClickEvents>, render_tx: &mut RenderSender, handlers: &mut Vec<()>) {
        let _ = ClickEvents::Clicked.dispatch(sender);
        let _ = ClickEvents::Clicked.dispatch(sender);
    }

    fn destroyed(&self, sender: &MessageSender<ClickEvents>, render_tx: &mut RenderSender) -> (passed: usize) {
        0
    }

    fn rendererd(&self, sender: &mut MessageSender<ClickEvents>, render_tx: &mut RenderSender) {
    }
}

/// Draws the flag in a box.
#[derive(Clone, Copy, Debug, Default)]
pub struct RenderAsBox;

impl Renderer for RenderAsBox {
    type Target = Flag;

    type Node = Option<bool>;

    open spec fn drawn(&self, target: Flag) -> Option<bool> {
        Some(target.status)
    }

    open spec fn blank(&self) -> Option<bool> {
        None
    }

    fn view(&self, target: &Flag) -> (node: Option<bool>) {
        Some(target.status)
    }

    fn template(&self) -> (node: Option<bool>) {
        None
    }
}

/// Mounts the example at the element `app`; `found` says whether the
/// document has such an element.
pub fn init_example(found: bool) -> (entry: Entry<Model, MainView>)
    ensures
        entry.fresh(Some("app"), found, MainView),
{
    Entry::init_app(Some("app"), found, MainView)
}

} // verus!
