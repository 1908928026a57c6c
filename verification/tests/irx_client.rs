use napali::irx_client::api::{ApiKey, ApiKeyError};
use napali::irx_client::{Handled, IrxClient, Reaction};
use napali::router::{Address, Cacheable, Kind, Message, Payload};
use tokio::sync::mpsc::error::TryRecvError;
use tokio::sync::mpsc::unbounded_channel;

const KEY: &str = "abcdefghijklmnopqrstuvwxyzABCDEFGHIJ0123";
const OTHER_KEY: &str = "0000000000111111111122222222223333333333";

fn ask(source: Address) -> Message {
    Message {
        source,
        destination: Address::IrxClient,
        payload: Payload::Empty,
        tag: None,
        cacheable: Cacheable::No,
        kind: Kind::Ask,
    }
}

fn reply(destination: Address, payload: Payload) -> Message {
    Message {
        source: Address::IrxClient,
        destination,
        payload,
        tag: None,
        cacheable: Cacheable::No,
        kind: Kind::Tell,
    }
}

#[test]
fn keys_are_forty_letters_and_digits() {
    assert_eq!(ApiKey::from_str(KEY).unwrap().as_str(), KEY);
    assert_eq!(ApiKey::from_str(OTHER_KEY).unwrap().into_string(), OTHER_KEY);
    assert_eq!(ApiKey::from_str(""), Err(ApiKeyError::TooShort));
    assert_eq!(ApiKey::from_str(&KEY[1..]), Err(ApiKeyError::TooShort));
    assert_eq!(ApiKey::from_str(&format!("{}x", KEY)), Err(ApiKeyError::TooLong));
    let with_hyphen = format!("{}-", &KEY[1..]);
    assert_eq!(ApiKey::from_str(&with_hyphen), Err(ApiKeyError::PatternMismatch));
    let with_space = format!(" {}", &KEY[1..]);
    assert_eq!(ApiKey::from_str(&with_space), Err(ApiKeyError::PatternMismatch));
    // Forty bytes, but fewer characters.
    let with_umlaut = format!("ä{}", &KEY[2..]);
    assert_eq!(with_umlaut.len(), 40);
    assert_eq!(ApiKey::from_str(&with_umlaut), Err(ApiKeyError::PatternMismatch));
}

#[test]
fn checked_keys_follow_the_check() {
    assert_eq!(ApiKey::from_checked(KEY, true).unwrap().as_str(), KEY);
    assert_eq!(ApiKey::from_checked(KEY, false), Err(ApiKeyError::PatternMismatch));
    assert_eq!(ApiKey::from_checked("short", true), Err(ApiKeyError::TooShort));
    assert_eq!(ApiKey::from_checked(&format!("{}{}", KEY, KEY), true), Err(ApiKeyError::TooLong));
}

#[test]
fn key_errors_say_what_is_wrong() {
    assert_eq!(ApiKeyError::TooLong.message(), "longer than 40 characters");
    assert_eq!(ApiKeyError::TooShort.message(), "shorter than 40 characters");
    assert_eq!(
        ApiKeyError::PatternMismatch.message(),
        "doesn't match pattern \"[0-9a-zA-Z]{40}\""
    );
}

#[test]
fn duplicate_copies_a_key() {
    let key = ApiKey::from_str(KEY).unwrap();
    assert_eq!(key.duplicate(), key);
    assert_ne!(key, ApiKey::from_str(OTHER_KEY).unwrap());
}

#[test]
fn actor_without_credential_answers_empty() {
    let (tx, _rx) = unbounded_channel::<Message>();
    let mut client = IrxClient::new(tx, None);
    assert_eq!(
        client.respond(ask(Address::StateDisplay)),
        Reaction::Reply(reply(Address::StateDisplay, Payload::Empty))
    );
}

#[test]
fn actor_answers_with_its_credential() {
    let (tx, _rx) = unbounded_channel::<Message>();
    let key = ApiKey::from_str(KEY).unwrap();
    let client = IrxClient::new(tx, Some(key.clone()));
    assert_eq!(
        client.respond(ask(Address::Home)),
        Reaction::Reply(reply(Address::Home, Payload::ApiKey(key)))
    );
}

#[test]
fn actor_answers_with_the_upgraded_credential() {
    let (tx, mut rx) = unbounded_channel::<Message>();
    let mut client = IrxClient::new(tx, None);
    assert_eq!(client.handle(ask(Address::StateDisplay)), Handled::Replied(true));
    assert_eq!(rx.try_recv(), Ok(reply(Address::StateDisplay, Payload::Empty)));

    let email: email_address::EmailAddress = "someone@example.org".parse().unwrap();
    let tell = Message {
        source: Address::About,
        destination: Address::IrxClient,
        payload: Payload::Email(email.clone()),
        tag: None,
        cacheable: Cacheable::No,
        kind: Kind::Tell,
    };
    assert_eq!(client.handle(tell), Handled::Upgrade(email));
    assert_eq!(rx.try_recv(), Err(TryRecvError::Empty));

    let upgraded = ApiKey::from_str(OTHER_KEY).unwrap();
    client.accept_upgrade(upgraded.clone());
    assert_eq!(client.handle(ask(Address::StateDisplay)), Handled::Replied(true));
    assert_eq!(rx.try_recv(), Ok(reply(Address::StateDisplay, Payload::ApiKey(upgraded))));
}

#[test]
fn actor_ignores_what_is_not_its_business() {
    let (tx, mut rx) = unbounded_channel::<Message>();
    let mut client = IrxClient::new(tx, None);
    let tell_text = Message {
        kind: Kind::Tell,
        payload: Payload::String("hello".to_string()),
        ..ask(Address::Home)
    };
    assert_eq!(client.respond(tell_text.clone()), Reaction::Ignore);
    assert_eq!(client.handle(tell_text), Handled::Ignored);
    let tell_empty = Message { kind: Kind::Tell, ..ask(Address::Home) };
    assert_eq!(client.handle(tell_empty), Handled::Ignored);
    let for_another = Message { destination: Address::Session, ..ask(Address::Home) };
    assert_eq!(client.handle(for_another), Handled::Ignored);
    assert_eq!(rx.try_recv(), Err(TryRecvError::Empty));
}

#[test]
fn answer_that_nobody_takes_is_dropped() {
    let (tx, rx) = unbounded_channel::<Message>();
    drop(rx);
    let mut client = IrxClient::new(tx, None);
    assert_eq!(client.handle(ask(Address::Home)), Handled::Replied(false));
}

#[test]
fn actor_is_reached_through_its_handle() {
    let (tx, _rx) = unbounded_channel::<Message>();
    let mut client = IrxClient::new(tx, None);
    let handle = client.get_tx_handle();
    let mut receiver = client.take_receiver().unwrap();
    assert!(client.take_receiver().is_none());
    handle.send(ask(Address::Home)).unwrap();
    assert_eq!(receiver.try_recv(), Ok(ask(Address::Home)));
}

#[test]
fn stored_key_is_read_without_its_line_feeds() {
    let text = "abcdefghijklmnopqrstuvwxyzABCDEFGHIJ0123";
    let key = ApiKey::from_str(text).unwrap();
    assert_eq!(ApiKey::from_stored("abcdefghijklmnopqrstuvwxyzABCDEFGHIJ0123\n"), Some(key.clone()));
    assert_eq!(ApiKey::from_stored(text), Some(key.clone()));
    assert_eq!(
        ApiKey::from_stored("\nabcdefghijklmnopqrst\n\nuvwxyzABCDEFGHIJ0123\n"),
        Some(key)
    );
    assert_eq!(ApiKey::from_stored(""), None);
    assert_eq!(ApiKey::from_stored("\n"), None);
    assert_eq!(ApiKey::from_stored("abcdefghijklmnopqrstuvwxyzABCDEFGHIJ012\n"), None);
    assert_eq!(ApiKey::from_stored("abcdefghijklmnopqrstuvwxyzABCDEFGHIJ01234\n"), None);
    assert_eq!(ApiKey::from_stored("abcdefghijklmnopqrstuvwxyzABCDEFGHIJ012 \n"), None);
    // Only line feeds are taken out.
    assert_eq!(ApiKey::from_stored("abcdefghijklmnopqrstuvwxyzABCDEFGHIJ0123\r\n"), None);
}

#[test]
fn answer_is_reported_as_taken_or_not() {
    assert_eq!(IrxClient::replied(Ok(())), Handled::Replied(true));
    assert_eq!(
        IrxClient::replied(Err(reply(Address::About, Payload::Empty))),
        Handled::Replied(false)
    );
}
