//! The dispatch loop's decisions.
//!
//! The loop itself waits for the terminal driver and draws, which is not
//! done here. What is done here is everything the loop decides: which action
//! an event stands for, what an action does to the state of the loop, which
//! components see it and what they answer, and whether the loop goes on,
//! suspends or ends.
//!
//! The driver of the loop calls, for every event, [`App::handle_event`], and
//! then, for every action that [`App::next_action`] hands out,
//! [`App::apply`], the drawing or resizing that `apply` asks for, and
//! [`App::broadcast`]; and once no action is left, [`App::after_drain`].

use crate::action::mode::Mode;
use crate::action::scene::Scene;
use crate::action::{Action, ActionView};
use crate::channel::{another, mailbox};
use crate::components::about::email_prompt::PromptStep;
use crate::components::about::About;
use crate::components::base::Base;
use crate::components::data::Data;
use crate::components::internals::Internals;
use crate::components::session::Session;
use crate::components::usage_info::UsageInfo;
use crate::components::Component;
use crate::config::keys::KeyEvent;
use crate::config::{Config, KeyMap};
use crate::irx_client::api::ApiKey;
use crate::irx_client::IrxClient;
use crate::router::{Address, Message, Router};
use crate::text::{chars_of, string_of};
use crate::tui::Event;
use tokio::sync::mpsc::UnboundedSender;
use vstd::prelude::*;

verus! {

/// What the driver of the loop has to do before the components see an
/// action.
#[derive(Debug, Copy, Clone, PartialEq, Eq, Hash, Structural)]
pub enum Effect {
    /// Nothing.
    Nothing,
    /// Draw every component, in the order of the list, so that the last
    /// lies on top.
    Draw,
    /// Resize the terminal to this width and height, and then draw.
    Resize(u16, u16),
}

/// How the loop goes on once no action is left.
#[derive(Debug, Copy, Clone, PartialEq, Eq, Hash, Structural)]
pub enum Cycle {
    /// Wait for the next event.
    Continue,
    /// Tear the terminal driver down, let the process be suspended, and
    /// build the driver up again. The action that takes the request back is
    /// queued already.
    Suspend,
    /// Stop the terminal driver and leave the loop.
    Quit,
}

/// The state of the loop itself.
pub struct LoopState {
    pub mode: Mode,
    pub scene: Scene,
    pub should_quit: bool,
    pub should_suspend: bool,
    pub pending: Seq<KeyEvent>,
}

/// What an action does to the state of the loop, and what the driver has
/// to do for it.
///
/// * A tick forgets the keys that were typed and bound to nothing.
/// * Quit, suspend and resume set and clear the two requests.
/// * A change of mode or of scene sets the mode or the scene, whatever the
///   mode is.
/// * A render asks for a draw, a resize for a resize and a draw.
pub open spec fn applied(state: LoopState, action: Action) -> (LoopState, Effect) {
    match action {
        Action::Tick => (LoopState { pending: Seq::empty(), ..state }, Effect::Nothing),
        Action::Quit => (LoopState { should_quit: true, ..state }, Effect::Nothing),
        Action::Suspend => (LoopState { should_suspend: true, ..state }, Effect::Nothing),
        Action::Resume => (LoopState { should_suspend: false, ..state }, Effect::Nothing),
        Action::Resize(w, h) => (state, Effect::Resize(w, h)),
        Action::ChangeScene(scene) => (LoopState { scene, ..state }, Effect::Nothing),
        Action::ChangeMode(mode) => (LoopState { mode, ..state }, Effect::Nothing),
        Action::Render => (state, Effect::Draw),
        _ => (state, Effect::Nothing),
    }
}

/// How the loop goes on once no action is left, and the action that is
/// queued for it: a request to suspend comes before a request to quit, and
/// queues the action that takes it back.
pub open spec fn drained(state: LoopState) -> (Cycle, Option<Action>) {
    if state.should_suspend {
        (Cycle::Suspend, Some(Action::Resume))
    } else if state.should_quit {
        (Cycle::Quit, None)
    } else {
        (Cycle::Continue, None)
    }
}

/// The action that a key stands for, and the keys that wait for more keys
/// afterwards. The key by itself is looked up first. If nothing is bound to
/// it, it joins the keys that wait, and the whole run is looked up.
pub open spec fn key_resolution(keymap: KeyMap, pending: Seq<KeyEvent>, key: KeyEvent) -> (
    Option<ActionView>,
    Seq<KeyEvent>,
) {
    match keymap.action_for(seq![key]) {
        Some(action) => (Some(action), pending),
        None => (keymap.action_for(pending.push(key)), pending.push(key)),
    }
}

/// A request to suspend, followed by the action that takes it back, leaves
/// mode, scene and waiting keys as they were, and makes the loop suspend
/// exactly once: after the request, and not again after it was taken back.
pub proof fn lemma_suspend_and_resume(state: LoopState)
    requires
        !state.should_suspend,
    ensures
        ({
            let suspended = applied(state, Action::Suspend).0;
            let resumed = applied(suspended, Action::Resume).0;
            &&& drained(suspended) == (Cycle::Suspend, Some(Action::Resume))
            &&& resumed == state
            &&& drained(resumed).0 != Cycle::Suspend
        }),
{
}

/// A key that is bound by itself stands for its action, whatever keys wait
/// for more keys, and is not added to them.
pub proof fn lemma_single_key_resolves(
    keymap: KeyMap,
    pending: Seq<KeyEvent>,
    key: KeyEvent,
    action: ActionView,
)
    requires
        keymap.action_for(seq![key]) == Some(action),
    ensures
        key_resolution(keymap, pending, key) == (Some(action), pending),
{
}

/// A key that is not bound by itself joins the keys that wait, and stands
/// for what the keys that wait, with it, are bound to. After the next tick
/// none of them waits any more.
pub proof fn lemma_unbound_key_waits_until_the_tick(
    keymap: KeyMap,
    state: LoopState,
    key: KeyEvent,
)
    requires
        keymap.action_for(seq![key]) is None,
    ensures
        key_resolution(keymap, state.pending, key) == (
            keymap.action_for(state.pending.push(key)),
            state.pending.push(key),
        ),
        applied(
            LoopState { pending: key_resolution(keymap, state.pending, key).1, ..state },
            Action::Tick,
        ).0.pending.len() == 0,
{
}

/// A key that the key map of the active scene binds by itself is queued as
/// its action, once, and the keys that wait for more keys are not extended
/// by it.
pub proof fn lemma_bound_key_is_queued_once(
    before: App,
    after: App,
    steps: Seq<Option<PromptStep>>,
    keymap: KeyMap,
    key: KeyEvent,
    action: ActionView,
)
    requires
        before.config.keybindings.of(before.scene) == Some(keymap),
        keymap.action_for(seq![key]) == Some(action),
        after.saw(before, Event::Key(key), steps),
    ensures
        after.queue@.len() == before.queue@.len() + 1,
        after.queue@.drop_last() == before.queue@,
        after.queue@.last()@ == action,
        after.last_tick_key_events@ == before.last_tick_key_events@,
        after.state() == before.state(),
{
}

/// After a tick no key waits for more keys.
pub proof fn lemma_tick_forgets_keys(state: LoopState)
    ensures
        applied(state, Action::Tick).0.pending.len() == 0,
{
}

/// The application: its configuration, its components in the order in
/// which they are drawn, the state of the loop, and the queue of actions.
pub struct App {
    pub config: Config,
    pub components: Vec<Component>,
    pub should_quit: bool,
    pub should_suspend: bool,
    pub mode: Mode,
    pub scene: Scene,
    pub last_tick_key_events: Vec<KeyEvent>,
    pub router: Option<Router>,
    pub message_tx_to_self: UnboundedSender<Message>,
    pub client: Option<IrxClient>,
    pub queue: Vec<Action>,
}

/// The actions that the components make in answer to an action, in the
/// order of the components.
pub open spec fn answers(components: Seq<Component>, action: Action) -> Seq<Action>
    decreases components.len(),
{
    if components.len() == 0 {
        Seq::empty()
    } else {
        let before = answers(components.drop_last(), action);
        match components.last().answer_to(action) {
            Some(answer) => before.push(answer),
            None => before,
        }
    }
}

impl App {
    /// The state of the loop.
    pub open spec fn state(self) -> LoopState {
        LoopState {
            mode: self.mode,
            scene: self.scene,
            should_quit: self.should_quit,
            should_suspend: self.should_suspend,
            pending: self.last_tick_key_events@,
        }
    }

    /// Whether the application has the configuration, the router, the
    /// credential actor and the mailbox that `before` has.
    pub open spec fn keeps(self, before: App) -> bool {
        &&& self.config == before.config
        &&& self.router == before.router
        &&& self.client == before.client
        &&& self.message_tx_to_self == before.message_tx_to_self
    }

    /// Whether the mailboxes are wired as at the start: the router and the
    /// credential actor are with the application, each of the application,
    /// the about scene, the internals scene, the state display, the
    /// credential actor and the session scene is registered with its own
    /// mailbox, and the email prompt of the about scene, the state display
    /// and the credential actor send through the router's own mailbox.
    pub open spec fn wired(self) -> bool {
        &&& self.components@.len() == 6
        &&& self.router matches Some(router)
        &&& self.client matches Some(client)
        &&& self.components@[0] matches Component::Internals(internals)
        &&& self.components@[1] matches Component::About(about)
        &&& self.components@[3] matches Component::Session(session)
        &&& router.is_registered(Address::Router)
        &&& router.is_registered(Address::App)
        &&& router.is_registered(Address::About)
        &&& router.is_registered(Address::Internals)
        &&& router.is_registered(Address::StateDisplay)
        &&& router.is_registered(Address::IrxClient)
        &&& router.is_registered(Address::Session)
        &&& router.mailbox_of(Address::App) == self.message_tx_to_self
        &&& router.mailbox_of(Address::About) == about.message_tx_to_self
        &&& router.mailbox_of(Address::Internals) == internals.message_tx_to_self
        &&& router.mailbox_of(Address::StateDisplay) == internals.state_display.message_tx_to_self
        &&& router.mailbox_of(Address::IrxClient) == client.mailbox()
        &&& router.mailbox_of(Address::Session) == session.message_tx_to_self
        &&& about.email_prompt.message_tx_to_router == router.mailbox_of(Address::Router)
        &&& internals.state_display.message_tx_to_router == router.mailbox_of(Address::Router)
        &&& client.router() == router.mailbox_of(Address::Router)
    }

    /// The application at the start, with the given configuration and
    /// credential: in the internals scene and in navigation, nothing
    /// queued, and the mailboxes of the about scene, the internals scene,
    /// the state display, the credential actor and the session scene
    /// registered with the router beside the router's own and the
    /// application's. The components are, from the bottom up: internals,
    /// about, data, session, the base layer, and the usage overlay, each as
    /// at its start. The router has forwarded nothing and the credential
    /// actor has answered nothing, and each has the receiving half of its
    /// mailbox.
    pub fn new(config: Config, api_key: Option<ApiKey>) -> (app: App)
        ensures
            app.config == config,
            app.state() == (LoopState {
                mode: Mode::Navigation,
                scene: Scene::Internals,
                should_quit: false,
                should_suspend: false,
                pending: Seq::empty(),
            }),
            app.queue@ == Seq::<Action>::empty(),
            app.client matches Some(client) && client.credential() == api_key,
            app.components@.len() == 6,
            app.components@[0] is Internals,
            app.components@[1] is About,
            app.components@[2] is Data,
            app.components@[3] is Session,
            app.components@[4] is Base,
            app.components@[5] is UsageInfo,
            forall|i: int| 0 <= i < 6 ==> (#[trigger] app.components@[i]).at_start(),
            app.router matches Some(router) && router.table().dom() =~= set![
                Address::App.code(),
                Address::Router.code(),
                Address::About.code(),
                Address::Internals.code(),
                Address::StateDisplay.code(),
                Address::IrxClient.code(),
                Address::Session.code(),
            ] && router.deliveries() == Seq::<crate::router::Delivery>::empty()
                && router.holds_receiver(),
            app.client matches Some(client) && client.replies() == Seq::<Message>::empty()
                && client.holds_receiver(),
            app.wired(),
    {
        let (message_tx_to_self, _) = mailbox();
        let (mut router, message_tx_to_router) = Router::new(another(&message_tx_to_self));
        let base = Base::new();
        let internals = Internals::new(another(&message_tx_to_router));
        let about = About::new(another(&message_tx_to_router));
        let usage_info = UsageInfo::default();
        let client = IrxClient::new(another(&message_tx_to_router), api_key);
        let data = Data::new();
        let session = Session::new();
        router.register(Address::About, another(&about.message_tx_to_self));
        router.register(Address::Internals, another(&internals.message_tx_to_self));
        router.register(Address::StateDisplay, internals.get_state_display_tx_handle());
        router.register(Address::IrxClient, client.get_tx_handle());
        router.register(Address::Session, another(&session.message_tx_to_self));
        let mut components: Vec<Component> = Vec::new();
        components.push(Component::Internals(internals));
        components.push(Component::About(about));
        components.push(Component::Data(data));
        components.push(Component::Session(session));
        components.push(Component::Base(base));
        components.push(Component::UsageInfo(usage_info));
        App {
            config,
            components,
            should_quit: false,
            should_suspend: false,
            mode: Mode::Navigation,
            scene: Scene::Internals,
            last_tick_key_events: Vec::new(),
            router: Some(router),
            message_tx_to_self,
            client: Some(client),
            queue: Vec::new(),
        }
    }

    /// Hands the router out, for the task that forwards the messages. There
    /// is one router; a second call returns `None`.
    pub fn take_router(&mut self) -> (router: Option<Router>)
        ensures
            router == old(self).router,
            final(self).router is None,
            final(self).state() == old(self).state(),
            final(self).queue == old(self).queue,
            final(self).components == old(self).components,
            final(self).config == old(self).config,
            final(self).client == old(self).client,
            final(self).message_tx_to_self == old(self).message_tx_to_self,
    {
        self.router.take()
    }

    /// Hands the credential actor out, for the task that answers its
    /// messages. There is one actor; a second call returns `None`.
    pub fn take_client(&mut self) -> (client: Option<IrxClient>)
        ensures
            client == old(self).client,
            final(self).client is None,
            final(self).state() == old(self).state(),
            final(self).queue == old(self).queue,
            final(self).components == old(self).components,
            final(self).config == old(self).config,
            final(self).router == old(self).router,
            final(self).message_tx_to_self == old(self).message_tx_to_self,
    {
        self.client.take()
    }

    /// Queues the action with which the loop begins: the change to the
    /// default scene.
    pub fn start(&mut self)
        ensures
            final(self).queue@ == old(self).queue@.push(Action::ChangeScene(Scene::Data)),
            final(self).state() == old(self).state(),
            final(self).components == old(self).components,
            final(self).keeps(*old(self)),
    {
        self.queue.push(Action::ChangeScene(Scene::default()));
    }

    /// Computes [`key_resolution`].
    pub fn resolve_key(keymap: &KeyMap, pending: &mut Vec<KeyEvent>, key: KeyEvent) -> (action:
        Option<Action>)
        ensures
            (match action {
                Some(a) => Some(a@),
                None => None,
            }, final(pending)@) == key_resolution(*keymap, old(pending)@, key),
    {
        let mut single: Vec<KeyEvent> = Vec::new();
        single.push(key);
        match keymap.get(&single) {
            Some(action) => Some(action.duplicate()),
            None => {
                pending.push(key);
                match keymap.get(pending) {
                    Some(action) => Some(action.duplicate()),
                    None => None,
                }
            },
        }
    }

    /// The action that an event stands for at the level of the loop, and
    /// the keys that wait for more keys afterwards. The driver's quit, tick,
    /// render and resize stand for the actions of the same names. A key
    /// stands for what the key map of the active scene binds it to, if the
    /// scene has a key map. Nothing else stands for an action.
    pub open spec fn event_action(self, event: Event) -> (Option<ActionView>, Seq<KeyEvent>) {
        let pending = self.last_tick_key_events@;
        match event {
            Event::Quit => (Some(ActionView::Quit), pending),
            Event::Tick => (Some(ActionView::Tick), pending),
            Event::Render => (Some(ActionView::Render), pending),
            Event::Resize(x, y) => (Some(ActionView::Resize(x, y)), pending),
            Event::Key(key) => match self.config.keybindings.of(self.scene) {
                Some(keymap) => key_resolution(keymap, pending, key),
                None => (None, pending),
            },
            _ => (None, pending),
        }
    }

    /// Turns an event into an action, as [`App::event_action`] says, and
    /// queues the action.
    pub fn interpret(&mut self, event: &Event) -> (queued: bool)
        ensures
            final(self).keeps(*old(self)),
            final(self).components == old(self).components,
            final(self).mode == old(self).mode,
            final(self).scene == old(self).scene,
            final(self).should_quit == old(self).should_quit,
            final(self).should_suspend == old(self).should_suspend,
            final(self).last_tick_key_events@ == old(self).event_action(*event).1,
            queued == old(self).event_action(*event).0 is Some,
            match old(self).event_action(*event).0 {
                Some(action) => final(self).queue@.len() == old(self).queue@.len() + 1
                    && final(self).queue@.last()@ == action
                    && final(self).queue@.drop_last() == old(self).queue@,
                None => final(self).queue@ == old(self).queue@,
            },
    {
        let action = match event {
            Event::Quit => Some(Action::Quit),
            Event::Tick => Some(Action::Tick),
            Event::Render => Some(Action::Render),
            Event::Resize(x, y) => Some(Action::Resize(*x, *y)),
            Event::Key(key) => match self.config.keybindings.get(&self.scene) {
                Some(keymap) => App::resolve_key(keymap, &mut self.last_tick_key_events, *key),
                None => None,
            },
            _ => None,
        };
        match action {
            Some(action) => {
                let ghost before = self.queue@;
                self.queue.push(action);
                assert(self.queue@.drop_last() == before);
                true
            },
            None => false,
        }
    }

    /// Whether `self` is the application that `before` may be once it has
    /// handled an event of the terminal driver, `steps` being what the email
    /// prompts of its components did with the event.
    ///
    /// The action that the event stands for, by [`App::event_action`], is
    /// queued last, once; an event that stands for none leaves the queue as
    /// it was. The keys that wait for more keys are those that
    /// [`App::event_action`] gives. Every component has seen the event as
    /// [`Component::saw`] says. Nothing else has changed.
    pub open spec fn saw(self, before: App, event: Event, steps: Seq<Option<PromptStep>>) -> bool {
        &&& self.keeps(before)
        &&& self.mode == before.mode
        &&& self.scene == before.scene
        &&& self.should_quit == before.should_quit
        &&& self.should_suspend == before.should_suspend
        &&& self.last_tick_key_events@ == before.event_action(event).1
        &&& match before.event_action(event).0 {
            Some(action) => self.queue@.len() == before.queue@.len() + 1 && self.queue@.last()@
                == action && self.queue@.drop_last() == before.queue@,
            None => self.queue@ == before.queue@,
        }
        &&& self.components@.len() == before.components@.len()
        &&& steps.len() == before.components@.len()
        &&& forall|i: int|
            0 <= i < self.components@.len() ==> (#[trigger] self.components@[i]).saw(
                before.components@[i],
                event,
                steps[i],
            )
    }

    /// Handles an event of the terminal driver, as [`App::saw`] says: the
    /// action that the event stands for is queued, and then every component
    /// sees the event, in the order of the list. Returns, for each component
    /// in that order, what its email prompt did with the event. The wiring
    /// of the mailboxes stays.
    pub fn handle_event(&mut self, event: &Event) -> (steps: Vec<Option<PromptStep>>)
        ensures
            final(self).saw(*old(self), *event, steps@),
            old(self).wired() ==> final(self).wired(),
    {
        self.interpret(event);
        let mut steps: Vec<Option<PromptStep>> = Vec::new();
        let mut i: usize = 0;
        while i < self.components.len()
            invariant
                i <= self.components.len(),
                steps@.len() == i,
                self.keeps(*old(self)),
                self.mode == old(self).mode,
                self.scene == old(self).scene,
                self.should_quit == old(self).should_quit,
                self.should_suspend == old(self).should_suspend,
                self.last_tick_key_events@ == old(self).event_action(*event).1,
                match old(self).event_action(*event).0 {
                    Some(action) => self.queue@.len() == old(self).queue@.len() + 1
                        && self.queue@.last()@ == action && self.queue@.drop_last() == old(
                        self,
                    ).queue@,
                    None => self.queue@ == old(self).queue@,
                },
                self.components@.len() == old(self).components@.len(),
                forall|j: int|
                    0 <= j < i ==> (#[trigger] self.components@[j]).saw(
                        old(self).components@[j],
                        *event,
                        steps@[j],
                    ),
                forall|j: int|
                    i <= j < self.components@.len() ==> #[trigger] self.components@[j] == old(
                        self,
                    ).components@[j],
            decreases self.components.len() - i,
        {
            let mut component = self.components.remove(i);
            let step = component.handle_events(event);
            self.components.insert(i, component);
            steps.push(step);
            i += 1;
        }
        steps
    }

    /// Takes the oldest action out of the queue.
    pub fn next_action(&mut self) -> (action: Option<Action>)
        ensures
            final(self).keeps(*old(self)),
            final(self).components == old(self).components,
            final(self).state() == old(self).state(),
            match action {
                Some(a) => old(self).queue@.len() > 0 && a == old(self).queue@[0]
                    && final(self).queue@ == old(self).queue@.subrange(1, old(self).queue@.len() as int),
                None => old(self).queue@.len() == 0 && final(self).queue@.len() == 0,
            },
    {
        if self.queue.len() > 0 {
            Some(self.queue.remove(0))
        } else {
            None
        }
    }

    /// Computes [`applied`] on the state of the loop: the state takes the
    /// action in, and what the driver has to do for it is returned. The
    /// components and the queue are left alone.
    pub fn apply(&mut self, action: &Action) -> (effect: Effect)
        ensures
            (final(self).state(), effect) == applied(old(self).state(), *action),
            final(self).keeps(*old(self)),
            final(self).components == old(self).components,
            final(self).queue == old(self).queue,
    {
        match action {
            Action::Tick => {
                self.last_tick_key_events.clear();
                Effect::Nothing
            },
            Action::Quit => {
                self.should_quit = true;
                Effect::Nothing
            },
            Action::Suspend => {
                self.should_suspend = true;
                Effect::Nothing
            },
            Action::Resume => {
                self.should_suspend = false;
                Effect::Nothing
            },
            Action::Resize(w, h) => Effect::Resize(*w, *h),
            Action::ChangeScene(scene) => {
                self.scene = *scene;
                Effect::Nothing
            },
            Action::ChangeMode(mode) => {
                self.mode = *mode;
                Effect::Nothing
            },
            Action::Render => Effect::Draw,
            _ => Effect::Nothing,
        }
    }

    /// Queues the error of a component that could not be drawn. The loop
    /// goes on.
    pub fn draw_failed(&mut self, description: &str)
        ensures
            final(self).queue@.len() == old(self).queue@.len() + 1,
            final(self).queue@.drop_last() == old(self).queue@,
            final(self).queue@.last()@ == ActionView::Error("Failed to draw: "@ + description@),
            final(self).state() == old(self).state(),
            final(self).components == old(self).components,
            final(self).keeps(*old(self)),
    {
        let mut message = chars_of("Failed to draw: ");
        let mut rest = chars_of(description);
        message.append(&mut rest);
        let ghost before = self.queue@;
        self.queue.push(Action::Error(string_of(&message)));
        assert(self.queue@.drop_last() == before);
    }

    /// Shows an action to every component, in the order of the list, each
    /// taking note of it as [`Component::follows`] says, and queues what
    /// they answer, in the same order. The wiring of the mailboxes stays.
    pub fn broadcast(&mut self, action: &Action)
        ensures
            final(self).keeps(*old(self)),
            final(self).state() == old(self).state(),
            final(self).components@.len() == old(self).components@.len(),
            forall|i: int|
                0 <= i < final(self).components@.len()
                    ==> (#[trigger] final(self).components@[i]).follows(old(self).components@[i], *action),
            final(self).queue@ == old(self).queue@ + answers(old(self).components@, *action),
            old(self).wired() ==> final(self).wired(),
    {
        let mut i: usize = 0;
        assert(old(self).components@.subrange(0, 0) == Seq::<Component>::empty());
        assert(self.queue@ + Seq::<Action>::empty() == self.queue@);
        while i < self.components.len()
            invariant
                i <= self.components.len(),
                self.keeps(*old(self)),
                self.state() == old(self).state(),
                self.components@.len() == old(self).components@.len(),
                forall|j: int|
                    0 <= j < i ==> (#[trigger] self.components@[j]).follows(
                        old(self).components@[j],
                        *action,
                    ),
                forall|j: int|
                    i <= j < self.components@.len()
                        ==> #[trigger] self.components@[j] == old(self).components@[j],
                self.queue@ == old(self).queue@ + answers(
                    old(self).components@.subrange(0, i as int),
                    *action,
                ),
            decreases self.components.len() - i,
        {
            let ghost seen = old(self).components@.subrange(0, i + 1);
            assert(seen.drop_last() == old(self).components@.subrange(0, i as int));
            assert(seen.last() == old(self).components@[i as int]);
            let ghost queue_before = self.queue@;
            let mut component = self.components.remove(i);
            let answer = component.update(action);
            self.components.insert(i, component);
            if let Some(answer) = answer {
                self.queue.push(answer);
                assert(self.queue@ == old(self).queue@ + answers(seen, *action));
            }
            i += 1;
        }
        assert(old(self).components@.subrange(0,
            old(self).components@.len() as int) == old(self).components@);
    }

    /// Computes [`drained`]: says how the loop goes on now that no action
    /// is left, and queues the action that takes a request to suspend back.
    pub fn after_drain(&mut self) -> (cycle: Cycle)
        ensures
            cycle == drained(old(self).state()).0,
            final(self).queue@ == match drained(old(self).state()).1 {
                Some(action) => old(self).queue@.push(action),
                None => old(self).queue@,
            },
            final(self).state() == old(self).state(),
            final(self).components == old(self).components,
            final(self).keeps(*old(self)),
    {
        if self.should_suspend {
            self.queue.push(Action::Resume);
            Cycle::Suspend
        } else if self.should_quit {
            Cycle::Quit
        } else {
            Cycle::Continue
        }
    }
}

} // verus!
