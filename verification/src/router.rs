//! The router: which root is mounted for which path.
//!
//! A router holds a table from paths to routes and the entry of the root
//! that is mounted now. Navigation events arrive in one mailbox, whether
//! they come from the history of the browser or from the application. For
//! each event the router looks the path up. A path without a route changes
//! nothing. A path with a route replaces the mounted root: the old root is
//! told to eject, and only when it is gone is the new root built.

use crate::container::LifeCycle;
use crate::entry::Entry;
use crate::mailbox::Mailbox;
use crate::renderer::Renderer;
use futures::channel::oneshot;
use vstd::prelude::*;

verus! {

/// The record that is kept with an entry of the browser's history, as a
/// list of keys and values. The path that was navigated to stands under the
/// key `path`.
pub struct HistoryState {
    pub entries: Vec<(String, String)>,
}

/// The value that stands under `key` in `entries`, where one does; of
/// several, the first.
pub open spec fn lookup(entries: Seq<(String, String)>, key: Seq<char>) -> Option<Seq<char>>
    decreases entries.len(),
{
    if entries.len() == 0 {
        None
    } else if entries[0].0@ == key {
        Some(entries[0].1@)
    } else {
        lookup(entries.drop_first(), key)
    }
}

impl HistoryState {
    /// The path that the record holds, if it holds one.
    pub open spec fn path_of(&self) -> Option<Seq<char>> {
        lookup(self.entries@, "path"@)
    }

    /// Whether the record is the one that is kept for a navigation to
    /// `path`: the path under the key `path`, and nothing else.
    pub open spec fn is_for(&self, path: Seq<char>) -> bool {
        &&& self.entries@.len() == 1
        &&& self.entries@[0].0@ == "path"@
        &&& self.entries@[0].1@ == path
    }

    /// The record to keep for a navigation to `path`.
    pub fn for_path(path: &str) -> (state: Self)
        ensures
            state.is_for(path@),
    {
        let mut entries = Vec::new();
        entries.push(("path".to_owned(), path.to_owned()));
        HistoryState { entries }
    }

    /// The path that the record holds, if it holds one.
    pub fn path(&self) -> (path: Option<String>)
        ensures
            (path is Some) == (self.path_of() is Some),
            path matches Some(found) ==> self.path_of() == Some(found@),
    {
        let key = "path".to_owned();
        let mut i: usize = 0;
        assert(self.entries@.skip(0) == self.entries@);
        while i < self.entries.len()
            invariant
                i <= self.entries.len(),
                key@ == "path"@,
                lookup(self.entries@, key@) == lookup(self.entries@.skip(i as int), key@),
            decreases self.entries.len() - i,
        {
            let ghost rest = self.entries@.skip(i as int);
            assert(rest[0] == self.entries@[i as int]);
            assert(rest.drop_first() == self.entries@.skip(i + 1));
            if self.entries[i].0 == key {
                return Some(self.entries[i].1.clone());
            }
            i += 1;
        }
        None
    }
}

/// A record kept for a navigation gives the path back.
pub proof fn lemma_history_round_trip(state: HistoryState, path: Seq<char>)
    requires
        state.is_for(path),
    ensures
        state.path_of() == Some(path),
{
}

/// A navigation event.
pub enum RouteEvent {
    /// The application asks for the given path.
    Manual(String),
    /// The browser moved in its history; the record of the entry it moved
    /// to is given, unless it could not be read.
    Native(Option<HistoryState>),
}

/// Announces that the application asks for `path`.
pub fn emit_route(events: &mut Mailbox<RouteEvent>, path: &str)
    ensures
        final(events)@.len() == old(events)@.len() + 1,
        final(events)@.drop_last() == old(events)@,
        final(events)@.last() matches RouteEvent::Manual(asked) && asked@ == path@,
{
    events.send(RouteEvent::Manual(path.to_owned()));
}

/// A recipe for a mounted root: the state of a component and the renderer
/// that draws it.
pub trait Routable {
    /// The state of the component that the recipe makes.
    type State: LifeCycle;

    /// The renderer of the component that the recipe makes.
    type View: Renderer<Target = Self::State>;

    /// The renderer that the recipe uses.
    spec fn page(&self) -> Self::View;

    /// Hands out the renderer.
    fn renderer(&self) -> (renderer: Self::View)
        ensures
            renderer == self.page(),
    ;

    /// Makes a fresh mounted root. `tag` names the element to mount at and
    /// `found` says whether the document has it.
    fn serve(&self, tag: Option<&str>, found: bool) -> (entry: Entry<Self::State, Self::View>)
        ensures
            entry.fresh(tag, found, self.page()),
    {
        Entry::init_app(tag, found, self.renderer())
    }
}

/// The recipe that draws a fresh component with a given renderer.
pub struct Route<R> {
    pub renderer: R,
}

impl<R: Renderer + Copy> Routable for Route<R> where R::Target: LifeCycle {
    type State = R::Target;

    type View = R;

    open spec fn page(&self) -> R {
        self.renderer
    }

    fn renderer(&self) -> (renderer: R) {
        self.renderer
    }
}

/// The place of the route for `path` in `routes`, looking from place
/// `from` on; of several routes for the path, the first.
pub open spec fn find<F>(routes: Seq<(String, F)>, path: Seq<char>, from: int) -> Option<int>
    decreases routes.len() - from,
{
    if from < 0 || from >= routes.len() {
        None
    } else if routes[from].0@ == path {
        Some(from)
    } else {
        find(routes, path, from + 1)
    }
}

/// A replacement that waits for the old root to go away.
pub struct Leaving {
    /// The place in the table of the route to mount next.
    pub route: usize,
    /// The path to record in the history once the new root is mounted, for
    /// a navigation that the application asked for.
    pub push: Option<String>,
}

/// What an attempt to navigate came to.
pub enum Routing {
    /// A replacement is under way; nothing was done.
    Busy,
    /// No route is registered for the path; nothing was done.
    NotFound,
    /// No root was alive, and the root for the path was mounted at once.
    /// What was left of an earlier entry was torn down first. `told` is
    /// nothing if no state was told then, and else the number of containers
    /// below the old root that were told with it.
    Mounted { told: Option<usize> },
    /// The mounted root was told to eject. The receiving half resolves
    /// when it is gone; the root for the path is mounted after that.
    Ejecting(oneshot::Receiver<()>),
}

/// What an attempt to finish a replacement came to.
pub enum Resumed {
    /// No replacement was under way.
    Nothing,
    /// The old root is not gone yet.
    Waiting,
    /// The old root was not alive any more and the new root was mounted.
    /// What was left of the old entry was torn down first. `push` is the
    /// path to record in the history, if the application asked for the
    /// navigation. `told` is nothing if no state was told in the teardown,
    /// as after an ejection, which tells the old root itself; else it is the
    /// number of containers below the old root that were told with it.
    Mounted { push: Option<String>, told: Option<usize> },
}

/// What a turn of the router came to.
pub enum Navigation {
    /// The router announced the empty path, with which every run begins.
    Started,
    /// No navigation event waits.
    Idle,
    /// The old root is not gone yet; no event was taken.
    Waiting,
    /// The event names no path; nothing was done.
    Ignored,
    /// No route is registered for the path of the event; nothing was done.
    NotFound,
    /// The root for the path of the event was mounted. `push` is the path to
    /// record in the history, if the application asked for the navigation.
    /// `told` says what the teardown of what was left of the old entry came
    /// to, as in [`Resumed::Mounted`].
    Mounted { push: Option<String>, told: Option<usize> },
    /// The mounted root was told to eject. The receiving half resolves
    /// when it is gone.
    Ejecting(oneshot::Receiver<()>),
}

impl Navigation {
    /// The turn as an attempt to finish a replacement.
    pub open spec fn finishing(self) -> Resumed {
        match self {
            Navigation::Mounted { push, told } => Resumed::Mounted { push, told },
            Navigation::Waiting => Resumed::Waiting,
            _ => Resumed::Nothing,
        }
    }

    /// The turn as an attempt to navigate.
    pub open spec fn attempt(self) -> Routing {
        match self {
            Navigation::Mounted { push, told } => Routing::Mounted { told },
            Navigation::Ejecting(receipt) => Routing::Ejecting(receipt),
            _ => Routing::NotFound,
        }
    }
}

impl RouteEvent {
    /// The path that the event asks for, if it names one.
    pub open spec fn wanted(&self) -> Option<Seq<char>> {
        match self {
            RouteEvent::Manual(path) => Some(path@),
            RouteEvent::Native(Some(state)) => state.path_of(),
            RouteEvent::Native(None) => None,
        }
    }
}

/// Routes by path, and the root that is mounted now.
#[verifier::reject_recursive_types(F)]
pub struct Router<F: Routable> {
    /// The path of the mounted root.
    pub path: Option<String>,
    /// The entry of the mounted root.
    pub entry: Option<Entry<F::State, F::View>>,
    /// The table: paths and their routes. A path is matched letter for
    /// letter.
    pub routes: Vec<(String, F)>,
    /// The navigation events that wait, oldest first.
    pub rx: Mailbox<RouteEvent>,
    /// The replacement that is under way.
    pub leaving: Option<Leaving>,
    /// Whether the router has announced the empty path.
    pub started: bool,
}

impl<F: Routable> Default for Router<F> {
    /// A router with an empty table and nothing mounted.
    fn default() -> (router: Self)
        ensures
            router.path is None,
            router.entry is None,
            router.routes@.len() == 0,
            router.rx@.len() == 0,
            router.leaving is None,
            !router.started,
    {
        Router::new()
    }
}

impl<F: Routable> Router<F> {
    /// Whether a root is mounted and alive.
    pub open spec fn mounted(&self) -> bool {
        self.entry matches Some(entry) && entry.live()
    }

    /// What doing away with the entry comes to: nothing if there is no
    /// entry, or no root in it, or if the state of the root is held by
    /// someone else; else the number of containers below the root that are
    /// told with it.
    pub open spec fn parting(&self) -> Option<usize> {
        match self.entry {
            Some(entry) => entry.parting(),
            None => None,
        }
    }

    /// Whether the router is in order: a path is noted exactly while there
    /// is an entry, and a replacement under way has an entry to wait for and
    /// names a route of the table.
    pub open spec fn in_order(&self) -> bool {
        &&& (self.path is Some) == (self.entry is Some)
        &&& self.leaving matches Some(leaving) ==> self.entry is Some && leaving.route < self.routes@.len()
    }

    /// Whether `after` and `routing` are what navigating to `path` makes
    /// of the router `self`, apart from the navigation events.
    ///
    /// While a replacement is under way nothing happens. A path without a
    /// route changes nothing. A path with a route, while a root is mounted
    /// and alive, tells that root to eject and notes the replacement; the
    /// mounted root itself is not touched. Otherwise what is left of an
    /// earlier entry is torn down, and then the fresh root for the path is
    /// mounted.
    pub open spec fn navigated(
        self,
        after: Self,
        path: Seq<char>,
        manual: bool,
        tag: Option<&str>,
        found: bool,
        routing: Routing,
    ) -> bool {
        &&& after.routes == self.routes
        &&& if self.leaving is Some {
            &&& routing is Busy
            &&& after.entry == self.entry
            &&& after.path == self.path
            &&& after.leaving == self.leaving
        } else {
            match find(self.routes@, path, 0) {
                None => {
                    &&& routing is NotFound
                    &&& after.entry == self.entry
                    &&& after.path == self.path
                    &&& after.leaving == self.leaving
                },
                Some(place) => if self.mounted() {
                    &&& routing is Ejecting
                    &&& after.path == self.path
                    &&& after.leaving matches Some(leaving)
                    &&& leaving.route == place
                    &&& (leaving.push is Some) == manual
                    &&& leaving.push matches Some(pushed) ==> pushed@ == path
                    &&& after.entry matches Some(entry)
                    &&& self.entry->0.told_to_eject(entry)
                } else {
                    &&& routing matches Routing::Mounted { told }
                    &&& told == self.parting()
                    &&& after.leaving is None
                    &&& after.path matches Some(mounted)
                    &&& mounted@ == path
                    &&& after.entry matches Some(entry)
                    &&& entry.fresh(tag, found, self.routes@[place].1.page())
                },
            }
        }
    }

    /// Whether `after` and `resumed` are what an attempt to finish the
    /// replacement makes of the router `self`, apart from the navigation
    /// events.
    ///
    /// The new root is built only when the old root is not alive any more,
    /// and after what is left of the old entry has been torn down.
    pub open spec fn resumed(self, after: Self, tag: Option<&str>, found: bool, resumed: Resumed) -> bool {
        &&& after.routes == self.routes
        &&& match self.leaving {
            None => {
                &&& resumed is Nothing
                &&& after.entry == self.entry
                &&& after.path == self.path
                &&& after.leaving is None
            },
            Some(leaving) => if self.mounted() {
                &&& resumed is Waiting
                &&& after.entry == self.entry
                &&& after.path == self.path
                &&& after.leaving == self.leaving
            } else if leaving.route < self.routes@.len() {
                &&& resumed matches Resumed::Mounted { push, told }
                &&& push == leaving.push
                &&& told == self.parting()
                &&& after.leaving is None
                &&& after.path matches Some(mounted)
                &&& mounted@ == self.routes@[leaving.route as int].0@
                &&& after.entry matches Some(entry)
                &&& entry.fresh(tag, found, self.routes@[leaving.route as int].1.page())
            } else {
                &&& resumed is Nothing
                &&& after.entry == self.entry
                &&& after.path == self.path
                &&& after.leaving is None
            },
        }
    }

    /// A router with an empty table and nothing mounted.
    pub fn new() -> (router: Self)
        ensures
            router.path is None,
            router.entry is None,
            router.routes@.len() == 0,
            router.rx@.len() == 0,
            router.leaving is None,
            !router.started,
    {
        Router { path: None, entry: None, routes: Vec::new(), rx: Mailbox::new(), leaving: None, started: false }
    }

    /// Registers `route` for `path`. A route that was registered for the
    /// path before is replaced.
    pub fn at(self, path: &str, route: F) -> (router: Self)
        ensures
            router.path == self.path,
            router.entry == self.entry,
            router.rx == self.rx,
            router.leaving == self.leaving,
            router.started == self.started,
            match find(self.routes@, path@, 0) {
                Some(place) => {
                    &&& router.routes@.len() == self.routes@.len()
                    &&& router.routes@[place].0@ == path@
                    &&& router.routes@[place].1 == route
                    &&& forall|i: int|
                        0 <= i < self.routes@.len() && i != place ==> router.routes@[i] == self.routes@[i]
                },
                None => {
                    &&& router.routes@.len() == self.routes@.len() + 1
                    &&& router.routes@.drop_last() == self.routes@
                    &&& router.routes@.last().0@ == path@
                    &&& router.routes@.last().1 == route
                },
            },
            find(router.routes@, path@, 0) is Some,
    {
        let mut router = self;
        let place = router.lookup(path);
        match place {
            Some(place) => {
                router.routes.set(place, (path.to_owned(), route));
                proof {
                    lemma_find_first(self.routes@, path@, 0);
                    lemma_find_at(router.routes@, path@, 0, place as int);
                }
            },
            None => {
                router.routes.push((path.to_owned(), route));
                proof {
                    lemma_find_first(self.routes@, path@, 0);
                    lemma_find_at(router.routes@, path@, 0, self.routes@.len() as int);
                }
            },
        }
        router
    }

    /// Navigates to `path`: see [`Router::navigated`]. `tag` names the
    /// element to mount at and `found` says whether the document has it.
    /// The history is left alone.
    pub fn routing(&mut self, path: &str, tag: Option<&str>, found: bool) -> (routing: Routing)
        ensures
            old(self).navigated(*final(self), path@, false, tag, found, routing),
            final(self).rx == old(self).rx,
            final(self).started == old(self).started,
    {
        self.navigate(path, false, tag, found)
    }

    fn navigate(&mut self, path: &str, manual: bool, tag: Option<&str>, found: bool) -> (routing: Routing)
        ensures
            old(self).navigated(*final(self), path@, manual, tag, found, routing),
            final(self).rx == old(self).rx,
            final(self).started == old(self).started,
    {
        if self.leaving.is_some() {
            return Routing::Busy;
        }
        let place = match self.lookup(path) {
            None => {
                return Routing::NotFound;
            },
            Some(place) => place,
        };
        let current = self.entry.take();
        let told = match current {
            Some(mut entry) => {
                if entry.is_live() {
                    let receipt = entry.eject();
                    self.entry = Some(entry);
                    let push = if manual {
                        Some(path.to_owned())
                    } else {
                        None
                    };
                    self.leaving = Some(Leaving { route: place, push });
                    return Routing::Ejecting(receipt);
                }
                entry.dispose()
            },
            None => None,
        };
        let entry = self.routes[place].1.serve(tag, found);
        self.entry = Some(entry);
        self.path = Some(path.to_owned());
        Routing::Mounted { told }
    }

    /// Tries to finish the replacement that is under way: see
    /// [`Router::resumed`]. To be called when the old root has reported that
    /// it is gone.
    pub fn resume(&mut self, tag: Option<&str>, found: bool) -> (resumed: Resumed)
        ensures
            old(self).resumed(*final(self), tag, found, resumed),
            final(self).rx == old(self).rx,
            final(self).started == old(self).started,
    {
        let leaving = match self.leaving.take() {
            None => {
                return Resumed::Nothing;
            },
            Some(leaving) => leaving,
        };
        let current = self.entry.take();
        let told = match current {
            Some(entry) => {
                if entry.is_live() {
                    self.entry = Some(entry);
                    self.leaving = Some(leaving);
                    return Resumed::Waiting;
                }
                if leaving.route >= self.routes.len() {
                    self.entry = Some(entry);
                    return Resumed::Nothing;
                }
                entry.dispose()
            },
            None => {
                if leaving.route >= self.routes.len() {
                    return Resumed::Nothing;
                }
                None
            },
        };
        let entry = self.routes[leaving.route].1.serve(tag, found);
        self.entry = Some(entry);
        self.path = Some(self.routes[leaving.route].0.clone());
        Resumed::Mounted { push: leaving.push, told }
    }

    /// One turn of the router.
    ///
    /// The first turn announces the empty path. While a replacement is
    /// under way, a turn tries to finish it and takes no event. Otherwise
    /// the turn takes the oldest navigation event and navigates to the path
    /// that it names. For a navigation that the application asked for and
    /// that mounted a root, the path is handed out to be recorded in the
    /// history, so that moving back and forth in the history agrees with
    /// what the application did.
    pub fn handling(&mut self, tag: Option<&str>, found: bool) -> (navigation: Navigation)
        ensures
            final(self).routes == old(self).routes,
            final(self).started,
            !old(self).started ==> {
                &&& navigation is Started
                &&& final(self).entry == old(self).entry
                &&& final(self).path == old(self).path
                &&& final(self).leaving == old(self).leaving
                &&& final(self).rx@.len() == old(self).rx@.len() + 1
                &&& final(self).rx@.drop_last() == old(self).rx@
                &&& final(self).rx@.last() matches RouteEvent::Manual(asked) && asked@.len() == 0
            },
            old(self).started && old(self).leaving is Some ==> {
                &&& navigation is Mounted || navigation is Waiting || navigation is Ignored
                &&& final(self).rx == old(self).rx
                &&& old(self).resumed(*final(self), tag, found, navigation.finishing())
            },
            old(self).started && old(self).leaving is None && old(self).rx@.len() == 0 ==> {
                &&& navigation is Idle
                &&& *final(self) == *old(self)
            },
            old(self).started && old(self).leaving is None && old(self).rx@.len() > 0 ==> {
                &&& final(self).rx@ == old(self).rx@.drop_first()
                &&& match old(self).rx@[0].wanted() {
                    None => {
                        &&& navigation is Ignored
                        &&& final(self).entry == old(self).entry
                        &&& final(self).path == old(self).path
                        &&& final(self).leaving == old(self).leaving
                    },
                    Some(path) => {
                        &&& navigation is NotFound || navigation is Mounted || navigation is Ejecting
                        &&& old(self).navigated(
                            *final(self),
                            path,
                            old(self).rx@[0] is Manual,
                            tag,
                            found,
                            navigation.attempt(),
                        )
                        &&& navigation matches Navigation::Mounted { push, told } ==> {
                            &&& (push is Some) == (old(self).rx@[0] is Manual)
                            &&& push matches Some(pushed) ==> pushed@ == path
                        }
                    },
                }
            },
    {
        if !self.started {
            self.started = true;
            emit_route(&mut self.rx, "");
            proof {
                reveal_strlit("");
            }
            return Navigation::Started;
        }
        if self.leaving.is_some() {
            return match self.resume(tag, found) {
                Resumed::Nothing => Navigation::Ignored,
                Resumed::Waiting => Navigation::Waiting,
                Resumed::Mounted { push, told } => Navigation::Mounted { push, told },
            };
        }
        if self.rx.is_empty() {
            return Navigation::Idle;
        }
        let event = self.rx.recv();
        match event {
            None => Navigation::Idle,
            Some(RouteEvent::Native(None)) => Navigation::Ignored,
            Some(RouteEvent::Native(Some(state))) => {
                match state.path() {
                    None => Navigation::Ignored,
                    Some(path) => self.follow(path.as_str(), false, tag, found),
                }
            },
            Some(RouteEvent::Manual(path)) => self.follow(path.as_str(), true, tag, found),
        }
    }

    fn follow(&mut self, path: &str, manual: bool, tag: Option<&str>, found: bool) -> (navigation: Navigation)
        requires
            old(self).leaving is None,
        ensures
            navigation is NotFound || navigation is Mounted || navigation is Ejecting,
            old(self).navigated(*final(self), path@, manual, tag, found, navigation.attempt()),
            navigation matches Navigation::Mounted { push, told } ==> {
                &&& (push is Some) == manual
                &&& push matches Some(pushed) ==> pushed@ == path@
            },
            final(self).rx == old(self).rx,
            final(self).started == old(self).started,
    {
        match self.navigate(path, manual, tag, found) {
            Routing::Busy | Routing::NotFound => Navigation::NotFound,
            Routing::Mounted { told } => {
                let push = if manual {
                    Some(path.to_owned())
                } else {
                    None
                };
                Navigation::Mounted { push, told }
            },
            Routing::Ejecting(receipt) => Navigation::Ejecting(receipt),
        }
    }

    /// The place of the route for `path` in the table.
    pub fn lookup(&self, path: &str) -> (place: Option<usize>)
        ensures
            (place is Some) == (find(self.routes@, path@, 0) is Some),
            place matches Some(at) ==> find(self.routes@, path@, 0) == Some(at as int) && at < self.routes@.len(),
    {
        let wanted = path.to_owned();
        let mut i: usize = 0;
        while i < self.routes.len()
            invariant
                i <= self.routes.len(),
                wanted@ == path@,
                find(self.routes@, path@, 0) == find(self.routes@, path@, i as int),
            decreases self.routes.len() - i,
        {
            if self.routes[i].0 == wanted {
                return Some(i);
            }
            i += 1;
        }
        None
    }
}

/// Navigation leaves a router that is in order in order.
pub proof fn lemma_navigation_keeps_order<F: Routable>(
    before: Router<F>,
    after: Router<F>,
    path: Seq<char>,
    manual: bool,
    tag: Option<&str>,
    found: bool,
    routing: Routing,
)
    requires
        before.in_order(),
        before.navigated(after, path, manual, tag, found, routing),
    ensures
        after.in_order(),
{
    lemma_find_first(before.routes@, path, 0);
}

/// An attempt to finish a replacement leaves a router that is in order in
/// order, and on such a router it ends in one of two ways: the old root is
/// not gone yet, or the new root is mounted.
pub proof fn lemma_resume_keeps_order<F: Routable>(
    before: Router<F>,
    after: Router<F>,
    tag: Option<&str>,
    found: bool,
    resumed: Resumed,
)
    requires
        before.in_order(),
        before.resumed(after, tag, found, resumed),
    ensures
        after.in_order(),
        before.leaving is Some ==> resumed is Waiting || resumed is Mounted,
{
}

/// While a root is mounted and alive, navigation builds no other root. It
/// leaves the mounted root as it is and at most tells it to eject.
pub proof fn lemma_eject_before_mount<F: Routable>(
    before: Router<F>,
    after: Router<F>,
    path: Seq<char>,
    manual: bool,
    tag: Option<&str>,
    found: bool,
    routing: Routing,
)
    requires
        before.navigated(after, path, manual, tag, found, routing),
        before.mounted(),
    ensures
        !(routing is Mounted),
        after.mounted(),
        after.entry->0.root == before.entry->0.root,
        after.entry->0.stage == before.entry->0.stage,
        after.path == before.path,
{
}

/// A replacement builds the new root only when the old root is gone, and
/// the new root is fresh: its state is the state of a fresh component,
/// whatever the state of the old root was.
pub proof fn lemma_mount_follows_eject<F: Routable>(
    before: Router<F>,
    after: Router<F>,
    tag: Option<&str>,
    found: bool,
    resumed: Resumed,
)
    requires
        before.resumed(after, tag, found, resumed),
        resumed is Mounted,
    ensures
        before.leaving is Some,
        !before.mounted(),
        after.mounted(),
        after.leaving is None,
        after.entry->0.root matches Some(root) && root.data == F::State::initial(),
{
}

/// Navigating to a path without a route leaves everything as it is: the
/// mounted root with its state, the path, and a replacement under way.
pub proof fn lemma_unknown_path_changes_nothing<F: Routable>(
    before: Router<F>,
    after: Router<F>,
    path: Seq<char>,
    manual: bool,
    tag: Option<&str>,
    found: bool,
    routing: Routing,
)
    requires
        before.navigated(after, path, manual, tag, found, routing),
        find(before.routes@, path, 0) is None,
    ensures
        routing is NotFound || routing is Busy,
        after.entry == before.entry,
        after.path == before.path,
        after.leaving == before.leaving,
        after.routes == before.routes,
{
}

/// Navigating to the path that is mounted already is a navigation like any
/// other: the mounted root is told to eject and a fresh root for the same
/// path takes its place.
pub proof fn lemma_renavigation_remounts<F: Routable>(
    before: Router<F>,
    between: Router<F>,
    gone: Router<F>,
    after: Router<F>,
    path: Seq<char>,
    manual: bool,
    tag: Option<&str>,
    found: bool,
    routing: Routing,
    resumed: Resumed,
)
    requires
        before.mounted(),
        before.leaving is None,
        before.path matches Some(mounted) && mounted@ == path,
        find(before.routes@, path, 0) is Some,
        before.navigated(between, path, manual, tag, found, routing),
        gone.routes == between.routes,
        gone.leaving == between.leaving,
        !gone.mounted(),
        gone.resumed(after, tag, found, resumed),
    ensures
        routing is Ejecting,
        resumed is Mounted,
        after.path matches Some(mounted) && mounted@ == path,
        after.entry matches Some(entry) && entry.fresh(
            tag,
            found,
            before.routes@[find(before.routes@, path, 0)->0].1.page(),
        ),
{
    lemma_find_first(before.routes@, path, 0);
}

/// Where a route is found, the path stands, and at no place between where
/// the search began and there.
pub proof fn lemma_find_first<F>(routes: Seq<(String, F)>, path: Seq<char>, from: int)
    requires
        0 <= from,
    ensures
        match find(routes, path, from) {
            Some(place) => {
                &&& from <= place < routes.len()
                &&& routes[place].0@ == path
                &&& forall|i: int| from <= i < place ==> routes[i].0@ != path
            },
            None => forall|i: int| from <= i < routes.len() ==> routes[i].0@ != path,
        },
    decreases routes.len() - from,
{
    if from < routes.len() && routes[from].0@ != path {
        lemma_find_first(routes, path, from + 1);
    }
}

/// A path that stands at some place from where the search begins is found.
pub proof fn lemma_find_at<F>(routes: Seq<(String, F)>, path: Seq<char>, from: int, place: int)
    requires
        0 <= from <= place < routes.len(),
        routes[place].0@ == path,
    ensures
        find(routes, path, from) is Some,
    decreases routes.len() - from,
{
    if routes[from].0@ != path {
        lemma_find_at(routes, path, from + 1, place);
    }
}

} // verus!
