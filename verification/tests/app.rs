use napali::action::mode::Mode;
use napali::action::overlay::Overlay;
use napali::action::scene::Scene;
use napali::action::view::View;
use napali::action::Action;
use napali::app::{App, Cycle, Effect};
use napali::components::about::email_prompt::PromptStep;
use napali::components::internals::counters::Counters;
use napali::components::session::jobs::View as JobsView;
use napali::components::{Component, State};
use napali::config::keys::{parse_key_sequence, KeyCode, KeyEvent, KeyEventKind, KeyModifiers};
use napali::config::{AppConfig, Config, KeyBindings, KeyMap, Styles};
use napali::irx_client::api::ApiKey;
use napali::router::{Address, Cacheable, Kind, Message, Payload};
use napali::tui::{
    stop_step, Event, MouseButton, MouseEvent, MouseEventKind, StopStep, TerminalEvent, Wake,
};
use tokio::sync::mpsc::unbounded_channel;

fn new_app() -> App {
    let config = Config::new(AppConfig::default(), KeyBindings::default(), Styles::default());
    App::new(config, None)
}

fn key(c: char) -> Event {
    Event::Key(KeyEvent::new(KeyCode::Char(c), KeyModifiers::empty()))
}

fn drain(app: &mut App) -> Vec<(Action, Effect)> {
    let mut seen = Vec::new();
    while let Some(action) = app.next_action() {
        let effect = app.apply(&action);
        app.broadcast(&action);
        seen.push((action, effect));
        assert!(seen.len() < 100);
    }
    seen
}

#[test]
fn test_app_new() {
    let _ = new_app();
}

#[test]
fn app_starts_in_internals_and_navigation() {
    let mut app = new_app();
    assert_eq!(app.scene, Scene::Internals);
    assert_eq!(app.mode, Mode::Navigation);
    assert!(!app.should_quit);
    assert!(!app.should_suspend);
    assert!(app.queue.is_empty());
    assert!(app.last_tick_key_events.is_empty());
    assert_eq!(app.components.len(), 6);
    assert!(matches!(app.components[0], Component::Internals(_)));
    assert!(matches!(app.components[1], Component::About(_)));
    assert!(matches!(app.components[2], Component::Data(_)));
    assert!(matches!(app.components[3], Component::Session(_)));
    assert!(matches!(app.components[4], Component::Base(_)));
    assert!(matches!(app.components[5], Component::UsageInfo(_)));
    app.start();
    assert_eq!(app.queue, vec![Action::ChangeScene(Scene::Data)]);
}

#[test]
fn app_wires_the_mailboxes() {
    let key = ApiKey::from_str("abcdefghijklmnopqrstuvwxyzABCDEFGHIJ0123").unwrap();
    let config = Config::new(AppConfig::default(), KeyBindings::default(), Styles::default());
    let mut app = App::new(config, Some(key.clone()));
    let mut router = app.take_router().unwrap();
    assert!(app.take_router().is_none());
    let mut client = app.take_client().unwrap();
    assert!(app.take_client().is_none());
    let mut client_rx = client.take_receiver().unwrap();
    // The state display asks; the router forwards to the credential actor;
    // the actor answers; the router forwards to the state display.
    let mut display_rx = match &mut app.components[0] {
        Component::Internals(internals) => internals.state_display.begin_ask().unwrap(),
        _ => unreachable!(),
    };
    assert_eq!(router.run(), Ok(1));
    let ask = client_rx.try_recv().unwrap();
    assert_eq!(ask.kind, Kind::Ask);
    assert_eq!(ask.source, Address::StateDisplay);
    client.handle(ask);
    assert_eq!(router.run(), Ok(1));
    assert_eq!(
        display_rx.try_recv(),
        Ok(Message {
            source: Address::IrxClient,
            destination: Address::StateDisplay,
            payload: Payload::ApiKey(key),
            tag: None,
            cacheable: Cacheable::No,
            kind: Kind::Tell,
        })
    );
}

#[test]
fn single_key_resolves_to_its_action() {
    let mut app = new_app();
    app.scene = Scene::Home;
    assert_eq!(app.handle_event(&key('q')), vec![None; 6]);
    assert_eq!(app.queue, vec![Action::Quit]);
    assert!(app.last_tick_key_events.is_empty());
}

#[test]
fn unbound_key_waits_until_the_next_tick() {
    let mut app = new_app();
    app.scene = Scene::Home;
    app.handle_event(&key('x'));
    app.handle_event(&key('y'));
    assert!(app.queue.is_empty());
    assert_eq!(app.last_tick_key_events.len(), 2);
    app.handle_event(&Event::Tick);
    assert_eq!(app.queue, vec![Action::Tick]);
    let action = app.next_action().unwrap();
    assert_eq!(app.apply(&action), Effect::Nothing);
    assert_eq!(app.last_tick_key_events.len(), 0);
}

#[test]
fn key_sequences_resolve_once_complete() {
    let mut bindings = KeyBindings::default();
    let mut map = KeyMap::new();
    map.insert(parse_key_sequence("<g><g>").unwrap(), Action::Refresh);
    bindings.set(Scene::Home, map);
    let config = Config::new(AppConfig::default(), bindings, Styles::default());
    let mut app = App::new(config, None);
    app.scene = Scene::Home;
    app.handle_event(&key('g'));
    assert!(app.queue.is_empty());
    app.handle_event(&key('g'));
    assert_eq!(app.queue, vec![Action::Refresh]);
    assert_eq!(app.last_tick_key_events.len(), 2);
    // A bound key in between does not join the keys that wait.
    app.handle_event(&key('q'));
    assert_eq!(app.queue, vec![Action::Refresh, Action::Quit]);
    assert_eq!(app.last_tick_key_events.len(), 2);
}

#[test]
fn scene_without_key_map_binds_nothing() {
    let mut app = new_app();
    app.scene = Scene::Data;
    app.handle_event(&key('q'));
    assert!(app.queue.is_empty());
    assert!(app.last_tick_key_events.is_empty());
}

#[test]
fn driver_events_stand_for_actions() {
    let mut app = new_app();
    app.handle_event(&Event::Quit);
    app.handle_event(&Event::Tick);
    app.handle_event(&Event::Render);
    app.handle_event(&Event::Resize(80, 24));
    app.handle_event(&Event::Init);
    app.handle_event(&Event::Error);
    app.handle_event(&Event::Closed);
    app.handle_event(&Event::FocusGained);
    app.handle_event(&Event::FocusLost);
    app.handle_event(&Event::Paste("text".to_string()));
    app.handle_event(&Event::Mouse(MouseEvent {
        kind: MouseEventKind::Down(MouseButton::Left),
        column: 1,
        row: 2,
        modifiers: KeyModifiers::empty(),
    }));
    assert_eq!(
        app.queue,
        vec![Action::Quit, Action::Tick, Action::Render, Action::Resize(80, 24)]
    );
}

#[test]
fn actions_change_the_state_of_the_loop() {
    let mut app = new_app();
    assert_eq!(app.apply(&Action::Render), Effect::Draw);
    assert_eq!(app.apply(&Action::Resize(10, 20)), Effect::Resize(10, 20));
    assert_eq!(app.apply(&Action::ChangeScene(Scene::Session)), Effect::Nothing);
    assert_eq!(app.scene, Scene::Session);
    assert_eq!(app.apply(&Action::ChangeMode(Mode::TextInput)), Effect::Nothing);
    assert_eq!(app.mode, Mode::TextInput);
    assert_eq!(app.apply(&Action::ChangeScene(Scene::Home)), Effect::Nothing);
    assert_eq!(app.scene, Scene::Home);
    assert_eq!(app.apply(&Action::Quit), Effect::Nothing);
    assert!(app.should_quit);
    assert_eq!(app.apply(&Action::Help), Effect::Nothing);
    assert_eq!(app.apply(&Action::Refresh), Effect::Nothing);
    assert_eq!(app.apply(&Action::Error("e".to_string())), Effect::Nothing);
    assert_eq!(app.apply(&Action::ChangeView(View::A)), Effect::Nothing);
    assert_eq!(app.apply(&Action::ToggleOverlay(Overlay::UsageInfo)), Effect::Nothing);
    assert_eq!(app.scene, Scene::Home);
    assert_eq!(app.mode, Mode::TextInput);
    assert_eq!(app.after_drain(), Cycle::Quit);
}

#[test]
fn suspend_and_resume_leave_the_state_as_it_was() {
    let mut app = new_app();
    app.scene = Scene::Home;
    app.handle_event(&key('x'));
    let ctrl_z = Event::Key(KeyEvent::new(
        KeyCode::Char('z'),
        KeyModifiers::from_bits(KeyModifiers::CONTROL),
    ));
    app.handle_event(&ctrl_z);
    assert_eq!(drain(&mut app), vec![(Action::Suspend, Effect::Nothing)]);
    assert!(app.should_suspend);
    assert_eq!(app.after_drain(), Cycle::Suspend);
    assert_eq!(drain(&mut app), vec![(Action::Resume, Effect::Nothing)]);
    assert!(!app.should_suspend);
    assert_eq!(app.after_drain(), Cycle::Continue);
    assert!(app.queue.is_empty());
    assert_eq!(app.scene, Scene::Home);
    assert_eq!(app.mode, Mode::Navigation);
    assert_eq!(app.last_tick_key_events.len(), 1);
}

#[test]
fn suspend_comes_before_quit() {
    let mut app = new_app();
    app.apply(&Action::Quit);
    app.apply(&Action::Suspend);
    assert_eq!(app.after_drain(), Cycle::Suspend);
    assert_eq!(app.queue, vec![Action::Resume]);
    let resume = app.next_action().unwrap();
    app.apply(&resume);
    assert_eq!(app.after_drain(), Cycle::Quit);
    assert!(app.queue.is_empty());
}

#[test]
fn components_see_every_action_and_their_answers_are_queued() {
    let mut app = new_app();
    app.start();
    drain(&mut app);
    assert_eq!(app.scene, Scene::Data);
    app.queue.push(Action::ChangeScene(Scene::About));
    app.queue.push(Action::ChangeView(View::Prompt));
    let seen = drain(&mut app);
    assert_eq!(
        seen,
        vec![
            (Action::ChangeScene(Scene::About), Effect::Nothing),
            (Action::ChangeView(View::Prompt), Effect::Nothing),
            (Action::ChangeMode(Mode::TextInput), Effect::Nothing),
        ]
    );
    assert_eq!(app.mode, Mode::TextInput);
    match &app.components[1] {
        Component::About(about) => {
            assert_eq!(about.state, State::Visible);
            assert!(about.email_prompt.is_active);
            assert_eq!(about.mode, Mode::TextInput);
        }
        _ => unreachable!(),
    }
    match &app.components[4] {
        Component::Base(base) => assert_eq!(base.scene, Scene::About),
        _ => unreachable!(),
    }
    // A key goes to the prompt now; escape leaves it, and the next action
    // makes the about scene ask for navigation again.
    let steps = app.handle_event(&Event::Key(KeyEvent::new(KeyCode::Esc, KeyModifiers::empty())));
    assert_eq!(steps, vec![None, Some(PromptStep::Closed), None, None, None, None]);
    app.handle_event(&Event::Tick);
    let seen = drain(&mut app);
    assert_eq!(
        seen,
        vec![
            (Action::Tick, Effect::Nothing),
            (Action::ChangeMode(Mode::Navigation), Effect::Nothing),
        ]
    );
    assert_eq!(app.mode, Mode::Navigation);
}

#[test]
fn loop_changes_scene_whatever_the_mode() {
    let mut app = new_app();
    app.queue.push(Action::ChangeMode(Mode::TextInput));
    app.queue.push(Action::ChangeScene(Scene::Session));
    // The about scene asks for navigation at once, as its prompt is not
    // entered; the change of scene is seen before that.
    let seen = drain(&mut app);
    assert_eq!(seen[0].0, Action::ChangeMode(Mode::TextInput));
    assert_eq!(seen[1].0, Action::ChangeScene(Scene::Session));
    assert_eq!(app.scene, Scene::Session);
    match &app.components[3] {
        Component::Session(session) => assert_eq!(session.state, State::Hidden),
        _ => unreachable!(),
    }
    match &app.components[4] {
        Component::Base(base) => assert_eq!(base.scene, Scene::Data),
        _ => unreachable!(),
    }
    assert_eq!(app.mode, Mode::Navigation);
}

#[test]
fn draw_errors_are_queued() {
    let mut app = new_app();
    app.draw_failed("no room");
    assert_eq!(app.queue, vec![Action::Error("Failed to draw: no room".to_string())]);
    assert_eq!(drain(&mut app).len(), 1);
    match &app.components[0] {
        Component::Internals(internals) => assert_eq!(internals.counters.error, 1),
        _ => unreachable!(),
    }
}

#[test]
fn any_key_hides_the_usage_overlay() {
    let mut app = new_app();
    app.scene = Scene::Home;
    app.handle_event(&key('?'));
    drain(&mut app);
    match &app.components[5] {
        Component::UsageInfo(usage) => assert!(usage.is_visible()),
        _ => unreachable!(),
    }
    app.handle_event(&key('x'));
    match &app.components[5] {
        Component::UsageInfo(usage) => assert!(!usage.is_visible()),
        _ => unreachable!(),
    }
}

#[test]
fn only_key_presses_are_passed_on() {
    let press = KeyEvent::new(KeyCode::Char('a'), KeyModifiers::empty());
    let mut repeat = press;
    repeat.kind = KeyEventKind::Repeat;
    let mut release = press;
    release.kind = KeyEventKind::Release;
    assert!(matches!(
        Event::from_wake(Wake::Terminal(TerminalEvent::Key(press))),
        Some(Event::Key(k)) if k == press
    ));
    assert!(Event::from_wake(Wake::Terminal(TerminalEvent::Key(repeat))).is_none());
    assert!(Event::from_wake(Wake::Terminal(TerminalEvent::Key(release))).is_none());
    assert!(matches!(
        Event::from_wake(Wake::Terminal(TerminalEvent::Resize(3, 4))),
        Some(Event::Resize(3, 4))
    ));
    assert!(matches!(
        Event::from_wake(Wake::Terminal(TerminalEvent::FocusGained)),
        Some(Event::FocusGained)
    ));
    assert!(matches!(
        Event::from_wake(Wake::Terminal(TerminalEvent::FocusLost)),
        Some(Event::FocusLost)
    ));
    assert!(matches!(
        Event::from_wake(Wake::Terminal(TerminalEvent::Paste("p".to_string()))),
        Some(Event::Paste(p)) if p == "p"
    ));
    let mouse = MouseEvent {
        kind: MouseEventKind::ScrollUp,
        column: 5,
        row: 6,
        modifiers: KeyModifiers::from_bits(KeyModifiers::ALT),
    };
    assert!(matches!(
        Event::from_wake(Wake::Terminal(TerminalEvent::Mouse(mouse))),
        Some(Event::Mouse(m)) if m == mouse
    ));
    assert!(matches!(Event::from_wake(Wake::ReadFailed), Some(Event::Error)));
    assert!(Event::from_wake(Wake::StreamEnded).is_none());
    assert!(matches!(Event::from_wake(Wake::Tick), Some(Event::Tick)));
    assert!(matches!(Event::from_wake(Wake::Render), Some(Event::Render)));
    assert!(matches!(Event::Paste("x".to_string()).duplicate(), Event::Paste(p) if p == "x"));
}

#[test]
fn cancelled_driver_is_aborted_after_its_grace() {
    assert_eq!(stop_step(0, true), StopStep::Done);
    assert_eq!(stop_step(1000, true), StopStep::Done);
    assert_eq!(stop_step(0, false), StopStep::Wait);
    assert_eq!(stop_step(50, false), StopStep::Wait);
    assert_eq!(stop_step(51, false), StopStep::Abort);
    assert_eq!(stop_step(100, false), StopStep::Abort);
    assert_eq!(stop_step(101, false), StopStep::GiveUp);
}

#[test]
fn channels_of_the_components_are_their_own() {
    let (tx, mut rx) = unbounded_channel::<Message>();
    let app = new_app();
    drop(app);
    tx.send(Message::default()).unwrap();
    assert_eq!(rx.try_recv(), Ok(Message::default()));
}

#[test]
fn every_component_is_at_its_start() {
    let app = new_app();
    match &app.components[0] {
        Component::Internals(internals) => {
            assert_eq!(internals.state, State::Visible);
            assert_eq!(internals.mode, Mode::Navigation);
            assert_eq!(internals.counters, Counters::default());
            assert!(internals.actions.app_rates().is_empty());
            assert!(internals.actions.render_rates().is_empty());
            assert!(internals.actions.trail_lines().is_empty());
            assert!(internals.state_display.message_rx_from_router.is_some());
            assert!(internals.state_display.cache.is_empty());
        }
        _ => unreachable!(),
    }
    match &app.components[1] {
        Component::About(about) => {
            assert_eq!(about.state, State::Hidden);
            assert_eq!(about.mode, Mode::Navigation);
            assert!(!about.email_prompt.is_active);
            assert!(!about.email_prompt.is_valid);
            assert_eq!(about.email_prompt.line, "");
            assert_eq!(about.email_prompt.owner, Address::About);
        }
        _ => unreachable!(),
    }
    match &app.components[2] {
        Component::Data(data) => {
            assert_eq!(data.state, State::Hidden);
            assert_eq!(data.mode, Mode::Navigation);
        }
        _ => unreachable!(),
    }
    match &app.components[3] {
        Component::Session(session) => {
            assert_eq!(session.state, State::Hidden);
            assert_eq!(session.mode, Mode::Navigation);
            assert!(!session.prompt.is_active);
            assert_eq!(session.jobs.view, JobsView::All);
        }
        _ => unreachable!(),
    }
    match &app.components[4] {
        Component::Base(base) => {
            assert_eq!(base.scene, Scene::Data);
            assert_eq!(base.mode, Mode::Navigation);
        }
        _ => unreachable!(),
    }
    match &app.components[5] {
        Component::UsageInfo(usage_info) => assert_eq!(usage_info.state, State::Hidden),
        _ => unreachable!(),
    }
}

#[test]
fn application_has_a_mailbox_of_its_own_with_the_router() {
    let mut app = new_app();
    let router = app.take_router().unwrap();
    for address in [
        Address::App,
        Address::Router,
        Address::About,
        Address::Internals,
        Address::StateDisplay,
        Address::IrxClient,
        Address::Session,
    ] {
        assert!(router.has_mailbox(address));
    }
    assert!(!router.has_mailbox(Address::Home));
    assert!(!router.has_mailbox(Address::Drop));
}

#[test]
fn suspend_and_resume_leave_every_component_as_it_was() {
    let mut app = new_app();
    app.queue.push(Action::ChangeScene(Scene::Session));
    app.queue.push(Action::ChangeView(View::R));
    app.queue.push(Action::ChangeView(View::Prompt));
    app.queue.push(Action::ToggleOverlay(Overlay::UsageInfo));
    drain(&mut app);
    app.queue.push(Action::Suspend);
    let seen = drain(&mut app);
    assert_eq!(seen, vec![(Action::Suspend, Effect::Nothing)]);
    assert_eq!(app.after_drain(), Cycle::Suspend);
    let seen = drain(&mut app);
    assert_eq!(seen, vec![(Action::Resume, Effect::Nothing)]);
    assert_eq!(app.after_drain(), Cycle::Continue);
    assert_eq!(app.scene, Scene::Session);
    assert_eq!(app.mode, Mode::Navigation);
    match &app.components[0] {
        Component::Internals(internals) => {
            assert_eq!(internals.state, State::Hidden);
            assert_eq!(internals.mode, Mode::Navigation);
            assert_eq!(internals.counters.suspend, 1);
            assert_eq!(internals.counters.resume, 1);
        }
        _ => unreachable!(),
    }
    match &app.components[1] {
        Component::About(about) => {
            assert_eq!(about.state, State::Hidden);
            assert_eq!(about.mode, Mode::Navigation);
            assert!(!about.email_prompt.is_active);
        }
        _ => unreachable!(),
    }
    match &app.components[3] {
        Component::Session(session) => {
            assert_eq!(session.state, State::Visible);
            assert_eq!(session.mode, Mode::Navigation);
            assert!(session.prompt.is_active);
            assert_eq!(session.jobs.view, JobsView::Remote);
        }
        _ => unreachable!(),
    }
    match &app.components[4] {
        Component::Base(base) => {
            assert_eq!(base.scene, Scene::Session);
            assert_eq!(base.mode, Mode::Navigation);
        }
        _ => unreachable!(),
    }
    match &app.components[5] {
        Component::UsageInfo(usage_info) => assert_eq!(usage_info.state, State::Visible),
        _ => unreachable!(),
    }
}
