//! The display of the application's state, and the bridge by which it gets
//! the credential.
//!
//! The credential lives with its actor, and the display is drawn by code
//! that cannot wait for messages. So the display asks once, lets its caller
//! wait for the one answer, and remembers it: every later draw reads what
//! was remembered and asks nobody.
//!
//! While an answer is awaited, the receiving half of the display's mailbox
//! is with the caller. The display looks for that half before it asks, and
//! asks nothing without it: a second question cannot cross the first.

use crate::channel::{another, mailbox, send};
use crate::router::{Address, Cacheable, Kind, Message, Payload};
use tokio::sync::mpsc::{UnboundedReceiver, UnboundedSender};
use vstd::prelude::*;

verus! {

/// Why the credential could not be had.
#[derive(Debug, Copy, Clone, PartialEq, Eq, Hash, Structural)]
pub enum BridgeError {
    /// The router's mailbox did not take the question.
    RouterClosed,
    /// The receiving half of the display's mailbox is not with the display:
    /// an answer is awaited already.
    ReceiverTaken,
    /// The answer carries something else than a credential.
    InvalidPayload,
    /// The mailbox was closed before an answer came.
    NoMessage,
}

/// What the display does to get the credential.
pub enum KeyLookup {
    /// The credential was remembered: here it is, and nobody was asked.
    Cached(String),
    /// The credential actor was asked: wait for one message on this
    /// receiver, and hand both to [`StateDisplay::complete_lookup`].
    Asked(UnboundedReceiver<Message>),
    /// The question could not be asked.
    Failed(BridgeError),
}

/// The display of the application's state.
pub struct StateDisplay {
    pub message_tx_to_router: UnboundedSender<Message>,
    pub message_rx_from_router: Option<UnboundedReceiver<Message>>,
    pub message_tx_to_self: UnboundedSender<Message>,
    pub cache: Vec<(String, String)>,
    pub asked: Ghost<Seq<Message>>,
}

/// The question for the credential: an `Ask` without payload from the
/// display to the credential actor.
pub open spec fn question() -> Message {
    Message {
        source: Address::StateDisplay,
        destination: Address::IrxClient,
        payload: Payload::Empty,
        tag: None,
        cacheable: Cacheable::No,
        kind: Kind::Ask,
    }
}

/// What an answer holds: the text of the credential that it carries, or why
/// there is none. `None` stands for a mailbox that was closed.
pub open spec fn answer_key(answer: Option<Message>) -> Result<Seq<char>, BridgeError> {
    match answer {
        Some(message) => match message.payload {
            Payload::ApiKey(key) => Ok(key@),
            _ => Err(BridgeError::InvalidPayload),
        },
        None => Err(BridgeError::NoMessage),
    }
}

/// The value that the first entry of the given key holds, if there is one.
pub open spec fn remembered(cache: Seq<(Seq<char>, Seq<char>)>, key: Seq<char>) -> Option<
    Seq<char>,
>
    decreases cache.len(),
{
    if cache.len() == 0 {
        None
    } else if cache[0].0 == key {
        Some(cache[0].1)
    } else {
        remembered(cache.subrange(1, cache.len() as int), key)
    }
}

/// What is remembered once a value was put before everything else.
pub open spec fn remembering(cache: Seq<(Seq<char>, Seq<char>)>, key: Seq<char>, value: Seq<char>)
    -> Seq<(Seq<char>, Seq<char>)> {
    seq![(key, value)] + cache
}

/// A value that was remembered under a key is what the key holds from then
/// on, until another is remembered under it; what other keys hold stays as
/// it was. So the credential, once extracted, is returned by every later
/// lookup.
pub proof fn lemma_remembering(
    cache: Seq<(Seq<char>, Seq<char>)>,
    key: Seq<char>,
    value: Seq<char>,
    other: Seq<char>,
)
    ensures
        remembered(remembering(cache, key, value), key) == Some(value),
        other != key ==> remembered(remembering(cache, key, value), other) == remembered(
            cache,
            other,
        ),
{
    let after = remembering(cache, key, value);
    assert(after[0] == (key, value));
    assert(after.subrange(1, after.len() as int) == cache);
}

impl StateDisplay {
    /// The key under which the credential is remembered.
    pub open spec fn key() -> Seq<char> {
        "api_key"@
    }

    /// What the display remembers.
    pub open spec fn memory(self) -> Seq<(Seq<char>, Seq<char>)> {
        self.cache@.map_values(|entry: (String, String)| (entry.0@, entry.1@))
    }

    /// Whether the receiving half of the display's mailbox is with the
    /// display.
    pub open spec fn holds_receiver(self) -> bool {
        self.message_rx_from_router is Some
    }

    /// Whether the display is as at the start: the receiving half of its
    /// mailbox is with it, nothing was asked and nothing is remembered.
    pub open spec fn at_start(self) -> bool {
        &&& self.holds_receiver()
        &&& self.memory() == Seq::<(Seq<char>, Seq<char>)>::empty()
        &&& self.asked@ == Seq::<Message>::empty()
    }

    /// A display as at the start, which asks through `tx` and has a mailbox
    /// of its own.
    pub fn new(tx: UnboundedSender<Message>) -> (display: StateDisplay)
        ensures
            display.at_start(),
            display.message_tx_to_router == tx,
    {
        let (message_tx_to_self, message_rx_from_router) = mailbox();
        let display = StateDisplay {
            message_tx_to_router: tx,
            message_rx_from_router: Some(message_rx_from_router),
            message_tx_to_self,
            cache: Vec::new(),
            asked: Ghost(Seq::empty()),
        };
        assert(display.memory() == Seq::<(Seq<char>, Seq<char>)>::empty());
        display
    }

    /// A sender of the display's mailbox, to register with the router.
    pub fn get_tx_handle(&self) -> (tx: UnboundedSender<Message>)
        ensures
            tx == self.message_tx_to_self,
    {
        another(&self.message_tx_to_self)
    }

    /// What is remembered under a key.
    pub fn recall(&self, key: &str) -> (value: Option<String>)
        ensures
            match value {
                Some(v) => remembered(self.memory(), key@) == Some(v@),
                None => remembered(self.memory(), key@) is None,
            },
    {
        let wanted = key.to_owned();
        let mut i: usize = 0;
        assert(self.memory().subrange(0, self.memory().len() as int) == self.memory());
        while i < self.cache.len()
            invariant
                i <= self.cache.len(),
                wanted@ == key@,
                self.memory().len() == self.cache.len(),
                remembered(self.memory().subrange(i as int, self.memory().len() as int), key@)
                    == remembered(self.memory(), key@),
            decreases self.cache.len() - i,
        {
            let ghost rest = self.memory().subrange(i as int, self.memory().len() as int);
            assert(rest[0] == (self.cache@[i as int].0@, self.cache@[i as int].1@));
            assert(rest.subrange(1, rest.len() as int) == self.memory().subrange(
                i + 1,
                self.memory().len() as int,
            ));
            if self.cache[i].0 == wanted {
                return Some(self.cache[i].1.clone());
            }
            i += 1;
        }
        None
    }

    /// Remembers a value under a key, in place of what the key held.
    pub fn remember(&mut self, key: String, value: String)
        ensures
            final(self).memory() == remembering(old(self).memory(), key@, value@),
            final(self).asked == old(self).asked,
            final(self).message_tx_to_router == old(self).message_tx_to_router,
            final(self).message_tx_to_self == old(self).message_tx_to_self,
            final(self).message_rx_from_router == old(self).message_rx_from_router,
    {
        let ghost before = self.memory();
        let ghost added = (key@, value@);
        self.cache.insert(0, (key, value));
        assert(self.memory() == seq![added] + before);
    }

    /// Makes the [`question`] for the credential.
    pub fn request() -> (message: Message)
        ensures
            message == question(),
    {
        Message {
            source: Address::StateDisplay,
            destination: Address::IrxClient,
            payload: Payload::Empty,
            tag: None,
            cacheable: Cacheable::No,
            kind: Kind::Ask,
        }
    }

    /// What becomes of the receiver once the router's mailbox has taken the
    /// question or handed it back: if it took it, the receiver goes to the
    /// caller, who waits on it; if not, the receiver is with the display
    /// again, and the error says that the router's mailbox is closed.
    pub fn ask_outcome(&mut self, receiver: UnboundedReceiver<Message>, sent: Result<(), Message>)
        -> (r: Result<UnboundedReceiver<Message>, BridgeError>)
        ensures
            match sent {
                Ok(()) => r == Ok::<UnboundedReceiver<Message>, BridgeError>(receiver)
                    && *final(self) == *old(self),
                Err(_) => r == Err::<UnboundedReceiver<Message>, BridgeError>(
                    BridgeError::RouterClosed,
                ) && *final(self) == (StateDisplay {
                    message_rx_from_router: Some(receiver),
                    ..*old(self)
                }),
            },
    {
        match sent {
            Ok(()) => Ok(receiver),
            Err(_) => {
                self.message_rx_from_router = Some(receiver);
                Err(BridgeError::RouterClosed)
            },
        }
    }

    /// Asks the credential actor for the credential, and hands out the
    /// receiver on which the answer will come.
    ///
    /// A display whose receiver is not with it asks nothing, and fails with
    /// [`BridgeError::ReceiverTaken`]. Any other offers the router's mailbox
    /// the [`question`]: if the mailbox takes it, the question is recorded
    /// in `asked` and the receiver is handed out; if not, the display fails
    /// with [`BridgeError::RouterClosed`]. A display that fails is left as
    /// it was.
    pub fn begin_ask(&mut self) -> (r: Result<UnboundedReceiver<Message>, BridgeError>)
        ensures
            final(self).cache == old(self).cache,
            final(self).message_tx_to_router == old(self).message_tx_to_router,
            final(self).message_tx_to_self == old(self).message_tx_to_self,
            match r {
                Ok(receiver) => old(self).message_rx_from_router == Some(receiver)
                    && !final(self).holds_receiver() && final(self).asked@ == old(self).asked@.push(question()),
                Err(e) => *final(self) == *old(self) && e == if old(self).holds_receiver() {
                    BridgeError::RouterClosed
                } else {
                    BridgeError::ReceiverTaken
                },
            },
    {
        match self.message_rx_from_router.take() {
            Some(receiver) => {
                let request = StateDisplay::request();
                let ghost offered = request;
                let sent = send(&self.message_tx_to_router, request);
                proof {
                    if sent is Ok {
                        self.asked@ = self.asked@.push(offered);
                    }
                }
                self.ask_outcome(receiver, sent)
            },
            None => Err(BridgeError::ReceiverTaken),
        }
    }

    /// Computes [`answer_key`].
    pub fn read_answer(answer: Option<Message>) -> (r: Result<String, BridgeError>)
        ensures
            match r {
                Ok(key) => answer_key(answer) == Ok::<Seq<char>, BridgeError>(key@),
                Err(e) => answer_key(answer) == Err::<Seq<char>, BridgeError>(e),
            },
    {
        match answer {
            Some(message) => match message.payload {
                Payload::ApiKey(key) => Ok(key.into_string()),
                _ => Err(BridgeError::InvalidPayload),
            },
            None => Err(BridgeError::NoMessage),
        }
    }

    /// Takes the receiver back together with what came on it, and reads the
    /// answer. Whatever the answer is, the display can ask again
    /// afterwards.
    pub fn finish_ask(&mut self, receiver: UnboundedReceiver<Message>,
        answer: Option<Message>) -> (r:
        Result<String, BridgeError>)
        ensures
            final(self).message_rx_from_router == Some(receiver),
            final(self).cache == old(self).cache,
            final(self).asked == old(self).asked,
            final(self).message_tx_to_router == old(self).message_tx_to_router,
            final(self).message_tx_to_self == old(self).message_tx_to_self,
            match r {
                Ok(key) => answer_key(answer) == Ok::<Seq<char>, BridgeError>(key@),
                Err(e) => answer_key(answer) == Err::<Seq<char>, BridgeError>(e),
            },
    {
        self.message_rx_from_router = Some(receiver);
        StateDisplay::read_answer(answer)
    }

    /// Gets the credential: from memory if it is there, and nobody is
    /// asked then; else by asking the credential actor, as
    /// [`StateDisplay::begin_ask`] does.
    pub fn lookup_key(&mut self) -> (lookup: KeyLookup)
        ensures
            final(self).cache == old(self).cache,
            final(self).message_tx_to_router == old(self).message_tx_to_router,
            final(self).message_tx_to_self == old(self).message_tx_to_self,
            match remembered(old(self).memory(), StateDisplay::key()) {
                Some(value) => lookup matches KeyLookup::Cached(v) && v@ == value
                    && final(self).asked == old(self).asked
                    && final(self).message_rx_from_router == old(self).message_rx_from_router,
                None => match lookup {
                    KeyLookup::Cached(_) => false,
                    KeyLookup::Asked(receiver) => old(self).message_rx_from_router == Some(
                        receiver,
                    ) && !final(self).holds_receiver() && final(self).asked@ == old(self).asked@.push(question()),
                    KeyLookup::Failed(e) => *final(self) == *old(self) && e == if old(self).holds_receiver() {
                        BridgeError::RouterClosed
                    } else {
                        BridgeError::ReceiverTaken
                    },
                },
            },
    {
        match self.recall("api_key") {
            Some(value) => KeyLookup::Cached(value),
            None => match self.begin_ask() {
                Ok(receiver) => KeyLookup::Asked(receiver),
                Err(e) => KeyLookup::Failed(e),
            },
        }
    }

    /// Takes the receiver back together with what came on it, reads the
    /// answer, and remembers the credential if the answer carries one.
    pub fn complete_lookup(
        &mut self,
        receiver: UnboundedReceiver<Message>,
        answer: Option<Message>,
    ) -> (r: Result<String, BridgeError>)
        ensures
            final(self).message_rx_from_router == Some(receiver),
            final(self).asked == old(self).asked,
            final(self).message_tx_to_router == old(self).message_tx_to_router,
            final(self).message_tx_to_self == old(self).message_tx_to_self,
            match r {
                Ok(key) => answer_key(answer) == Ok::<Seq<char>, BridgeError>(key@)
                    && final(self).memory() == remembering(old(self).memory(), StateDisplay::key(), key@)
                    && remembered(final(self).memory(), StateDisplay::key()) == Some(key@),
                Err(e) => answer_key(answer) == Err::<Seq<char>, BridgeError>(e)
                    && final(self).cache == old(self).cache,
            },
    {
        match self.finish_ask(receiver, answer) {
            Ok(key) => {
                proof {
                    lemma_remembering(
                        self.memory(),
                        StateDisplay::key(),
                        key@,
                        StateDisplay::key(),
                    );
                }
                self.remember("api_key".to_owned(), key.clone());
                Ok(key)
            },
            Err(e) => Err(e),
        }
    }
}

} // verus!
