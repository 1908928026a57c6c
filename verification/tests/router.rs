use napali::channel::Polled;
use napali::irx_client::api::ApiKey;
use napali::router::{Address, Cacheable, Kind, Message, Payload, RouteError, Router};
use tokio::sync::mpsc::error::TryRecvError;
use tokio::sync::mpsc::unbounded_channel;

fn tell(source: Address, destination: Address, payload: Payload) -> Message {
    Message { source, destination, payload, tag: None, cacheable: Cacheable::No, kind: Kind::Tell }
}

#[test]
fn test_router_new() {
    let (tx, _) = unbounded_channel::<Message>();
    let _ = Router::new(tx);
}

#[test]
fn test_register() {
    let (tx0, _) = unbounded_channel::<Message>();
    let (tx1, _) = unbounded_channel::<Message>();
    let (mut router, _) = Router::new(tx0);
    router.register(Address::Drop, tx1);
}

#[test]
fn registered_mailbox_receives_the_message() {
    let (app_tx, _app_rx) = unbounded_channel::<Message>();
    let (mut router, _router_tx) = Router::new(app_tx);
    let (tx, mut rx) = unbounded_channel::<Message>();
    router.register(Address::Session, tx);
    let message = tell(Address::Router, Address::Session, Payload::Empty);
    assert_eq!(router.route(message.clone()), Ok(()));
    assert_eq!(rx.try_recv(), Ok(message));
    assert_eq!(rx.try_recv(), Err(TryRecvError::Empty));
}

#[test]
fn messages_for_one_address_arrive_in_order() {
    let (app_tx, mut app_rx) = unbounded_channel::<Message>();
    let (mut router, _router_tx) = Router::new(app_tx);
    let (tx, mut rx) = unbounded_channel::<Message>();
    router.register(Address::Home, tx);
    let first = tell(Address::App, Address::Home, Payload::String("first".to_string()));
    let other = tell(Address::Home, Address::App, Payload::String("other".to_string()));
    let second = Message {
        tag: Some("t".to_string()),
        cacheable: Cacheable::Yes,
        kind: Kind::Ask,
        ..tell(Address::App, Address::Home, Payload::String("second".to_string()))
    };
    assert_eq!(router.route(first.clone()), Ok(()));
    assert_eq!(router.route(other.clone()), Ok(()));
    assert_eq!(router.route(second.clone()), Ok(()));
    assert_eq!(rx.try_recv(), Ok(first));
    assert_eq!(rx.try_recv(), Ok(second));
    assert_eq!(rx.try_recv(), Err(TryRecvError::Empty));
    assert_eq!(app_rx.try_recv(), Ok(other));
    assert_eq!(app_rx.try_recv(), Err(TryRecvError::Empty));
}

#[test]
fn unregistered_address_is_an_error_and_nothing_is_delivered() {
    let (app_tx, mut app_rx) = unbounded_channel::<Message>();
    let (mut router, _router_tx) = Router::new(app_tx);
    let (tx, mut rx) = unbounded_channel::<Message>();
    router.register(Address::Session, tx);
    let message = tell(Address::App, Address::Internals, Payload::Empty);
    assert!(router.has_mailbox(Address::Session));
    assert!(router.has_mailbox(Address::App));
    assert!(router.has_mailbox(Address::Router));
    assert!(!router.has_mailbox(Address::Internals));
    assert_eq!(
        router.forward(Polled::Message(message.clone())),
        Some(Err(RouteError::Unregistered(message)))
    );
    assert_eq!(rx.try_recv(), Err(TryRecvError::Empty));
    assert_eq!(app_rx.try_recv(), Err(TryRecvError::Empty));
}

#[test]
fn closed_mailbox_hands_the_message_back() {
    let (app_tx, _app_rx) = unbounded_channel::<Message>();
    let (mut router, _router_tx) = Router::new(app_tx);
    let (tx, rx) = unbounded_channel::<Message>();
    router.register(Address::Session, tx);
    drop(rx);
    let message = tell(Address::App, Address::Session, Payload::Empty);
    assert_eq!(router.route(message.clone()), Err(RouteError::Closed(message)));
}

#[test]
fn later_registration_replaces_the_former() {
    let (app_tx, _app_rx) = unbounded_channel::<Message>();
    let (mut router, _router_tx) = Router::new(app_tx);
    let (tx1, mut rx1) = unbounded_channel::<Message>();
    let (tx2, mut rx2) = unbounded_channel::<Message>();
    router.register(Address::Session, tx1);
    router.register(Address::Session, tx2);
    let message = tell(Address::App, Address::Session, Payload::Empty);
    assert_eq!(router.route(message.clone()), Ok(()));
    assert_eq!(rx1.try_recv(), Err(TryRecvError::Disconnected));
    assert_eq!(rx2.try_recv(), Ok(message));
}

#[test]
fn router_forwards_what_waits_in_its_own_mailbox() {
    let (app_tx, mut app_rx) = unbounded_channel::<Message>();
    let (mut router, router_tx) = Router::new(app_tx);
    let (tx, mut rx) = unbounded_channel::<Message>();
    router.register(Address::StateDisplay, tx);
    assert_eq!(router.run(), Ok(0));
    let to_display = tell(Address::Router, Address::StateDisplay, Payload::Empty);
    let to_app = tell(Address::StateDisplay, Address::App, Payload::String("hi".to_string()));
    router_tx.send(to_display.clone()).unwrap();
    router_tx.send(to_app.clone()).unwrap();
    assert_eq!(router.run(), Ok(2));
    assert_eq!(rx.try_recv(), Ok(to_display));
    assert_eq!(rx.try_recv(), Err(TryRecvError::Empty));
    assert_eq!(app_rx.try_recv(), Ok(to_app));
    assert_eq!(router.run(), Ok(0));
}

#[test]
fn router_reaches_itself_under_its_own_address() {
    let (app_tx, _app_rx) = unbounded_channel::<Message>();
    let (mut router, router_tx) = Router::new(app_tx);
    let (tx, mut rx) = unbounded_channel::<Message>();
    router.register(Address::Session, tx);
    let relayed = tell(Address::App, Address::Router, Payload::Empty);
    assert_eq!(router.route(relayed.clone()), Ok(()));
    let direct = tell(Address::App, Address::Session, Payload::Empty);
    router_tx.send(direct.clone()).unwrap();
    // The first run forwards the relayed message to the router's own
    // mailbox again, behind the direct one, and the direct one to the
    // session.
    assert_eq!(router.run(), Ok(2));
    assert_eq!(rx.try_recv(), Ok(direct));
    assert_eq!(router.run(), Ok(1));
}

#[test]
fn run_stops_at_the_first_message_without_mailbox() {
    let (app_tx, mut app_rx) = unbounded_channel::<Message>();
    let (mut router, router_tx) = Router::new(app_tx);
    let good = tell(Address::Router, Address::App, Payload::Empty);
    let bad = tell(Address::Router, Address::Home, Payload::Empty);
    router_tx.send(good.clone()).unwrap();
    router_tx.send(bad.clone()).unwrap();
    router_tx.send(good.clone()).unwrap();
    assert_eq!(router.run(), Err(RouteError::Unregistered(bad)));
    assert_eq!(app_rx.try_recv(), Ok(good.clone()));
    assert_eq!(app_rx.try_recv(), Err(TryRecvError::Empty));
    assert_eq!(router.run(), Ok(1));
    assert_eq!(app_rx.try_recv(), Ok(good));
}

#[test]
fn receiver_can_be_taken_once() {
    let (app_tx, _app_rx) = unbounded_channel::<Message>();
    let (mut router, router_tx) = Router::new(app_tx);
    let mut receiver = router.take_receiver().unwrap();
    assert!(router.take_receiver().is_none());
    let message = tell(Address::App, Address::App, Payload::Empty);
    router_tx.send(message.clone()).unwrap();
    assert_eq!(router.run(), Ok(0));
    assert_eq!(receiver.try_recv(), Ok(message));
}

#[test]
fn outcome_of_a_send() {
    let message = tell(Address::App, Address::Home, Payload::Empty);
    assert_eq!(Router::outcome(Ok(())), Ok(()));
    assert_eq!(Router::outcome(Err(message.clone())), Err(RouteError::Closed(message)));
}

#[test]
fn addresses_have_codes_of_their_own() {
    let all = [
        Address::Drop,
        Address::Router,
        Address::IrxClient,
        Address::Internals,
        Address::StateDisplay,
        Address::Session,
        Address::Home,
        Address::App,
        Address::About,
    ];
    for (i, a) in all.iter().enumerate() {
        for (j, b) in all.iter().enumerate() {
            assert_eq!(a.key() == b.key(), i == j);
        }
    }
}

#[test]
fn defaults_of_the_message() {
    let message = Message::default();
    assert_eq!(message.source, Address::Drop);
    assert_eq!(message.destination, Address::Drop);
    assert_eq!(message.payload, Payload::Empty);
    assert_eq!(message.tag, None);
    assert_eq!(message.cacheable, Cacheable::No);
    assert_eq!(message.kind, Kind::Tell);
    assert_eq!(Payload::default(), Payload::Empty);
    assert_eq!(Address::default(), Address::Drop);
    assert_eq!(Cacheable::default(), Cacheable::No);
    assert_eq!(Kind::default(), Kind::Tell);
}

#[test]
fn payloads_carry_their_values() {
    let key = ApiKey::from_str("abcdefghijklmnopqrstuvwxyzABCDEFGHIJ0123").unwrap();
    let email: email_address::EmailAddress = "someone@example.org".parse().unwrap();
    let (app_tx, mut app_rx) = unbounded_channel::<Message>();
    let (mut router, _router_tx) = Router::new(app_tx);
    let with_key = tell(Address::IrxClient, Address::App, Payload::ApiKey(key));
    let with_email = tell(Address::About, Address::App, Payload::Email(email));
    assert_eq!(router.route(with_key.clone()), Ok(()));
    assert_eq!(router.route(with_email.clone()), Ok(()));
    assert_eq!(app_rx.try_recv(), Ok(with_key.clone()));
    assert_eq!(app_rx.try_recv(), Ok(with_email.clone()));
    assert_ne!(with_key, with_email);
}

#[test]
fn forward_deals_with_what_the_mailbox_answered() {
    let (app_tx, mut app_rx) = unbounded_channel::<Message>();
    let (mut router, _router_tx) = Router::new(app_tx);
    assert_eq!(router.forward(Polled::Empty), None);
    assert_eq!(router.forward(Polled::Disconnected), None);
    let good = tell(Address::Router, Address::App, Payload::Empty);
    assert_eq!(router.forward(Polled::Message(good.clone())), Some(Ok(())));
    assert_eq!(app_rx.try_recv(), Ok(good));
    let bad = tell(Address::Router, Address::Home, Payload::Empty);
    assert_eq!(
        router.forward(Polled::Message(bad.clone())),
        Some(Err(RouteError::Unregistered(bad)))
    );
    assert_eq!(app_rx.try_recv(), Err(TryRecvError::Empty));
}
