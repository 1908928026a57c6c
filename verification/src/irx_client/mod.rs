//! The actor that owns the credential of the remote service.
//!
//! The actor answers every `Ask` that reaches it with the credential it
//! holds, or with an empty payload when it holds none. A `Tell` that carries
//! an email address is a request for a better credential: the caller fetches
//! it from the service and hands it back with
//! [`IrxClient::accept_upgrade`].

pub mod api;

use crate::channel::{another, mailbox, send};
use crate::router::{Address, Cacheable, Kind, Message, Payload};
use api::ApiKey;
use tokio::sync::mpsc::{UnboundedReceiver, UnboundedSender};
use vstd::prelude::*;

verus! {

/// What the actor does with a message.
#[derive(Debug, Clone, PartialEq, Eq)]
pub enum Reaction {
    /// The message asks: this is the answer to send.
    Reply(Message),
    /// The message tells an email address: a credential for that address is
    /// to be asked of the service.
    Upgrade(email_address::EmailAddress),
    /// The message is none of the actor's business.
    Ignore,
}

/// What became of a message that the actor handled.
#[derive(Debug, Clone, PartialEq, Eq)]
pub enum Handled {
    /// An answer was made and offered to the router; `true` if the router's
    /// mailbox took it.
    Replied(bool),
    /// A credential for this address is to be asked of the service.
    Upgrade(email_address::EmailAddress),
    /// Nothing was done.
    Ignored,
}

/// The actor of the remote service's credential.
pub struct IrxClient {
    pub api_key: Option<ApiKey>,
    message_tx_to_router: UnboundedSender<Message>,
    message_rx_from_router: Option<UnboundedReceiver<Message>>,
    pub message_tx_to_self: UnboundedSender<Message>,
    replied: Ghost<Seq<Message>>,
}

/// The answer to an `Ask`: a `Tell` from the actor to the asker that carries
/// the credential, or nothing where there is none.
pub open spec fn answer(api_key: Option<ApiKey>, asker: Address) -> Message {
    Message {
        source: Address::IrxClient,
        destination: asker,
        payload: match api_key {
            Some(key) => Payload::ApiKey(key),
            None => Payload::Empty,
        },
        tag: None,
        cacheable: Cacheable::No,
        kind: Kind::Tell,
    }
}

/// What the actor does with a message, given the credential it holds. Only
/// messages for the actor count: an `Ask` is answered to its source, a
/// `Tell` of an email address asks for an upgrade, and a `Tell` of anything
/// else is ignored.
pub open spec fn reaction(api_key: Option<ApiKey>, message: Message) -> Reaction {
    if message.destination != Address::IrxClient {
        Reaction::Ignore
    } else {
        match message.kind {
            Kind::Ask => Reaction::Reply(answer(api_key, message.source)),
            Kind::Tell => match message.payload {
                Payload::Email(email) => Reaction::Upgrade(email),
                _ => Reaction::Ignore,
            },
        }
    }
}

impl IrxClient {
    /// The credential that the actor holds.
    pub closed spec fn credential(self) -> Option<ApiKey> {
        self.api_key
    }

    /// The answers that the router's mailbox has taken from the actor, in
    /// the order in which they were given.
    pub closed spec fn replies(self) -> Seq<Message> {
        self.replied@
    }

    /// Whether the actor still holds the receiving half of its mailbox.
    pub closed spec fn holds_receiver(self) -> bool {
        self.message_rx_from_router is Some
    }

    /// The sender through which the actor reaches the router.
    pub closed spec fn router(self) -> UnboundedSender<Message> {
        self.message_tx_to_router
    }

    /// An actor with the given credential and a mailbox of its own, which
    /// sends its answers through `tx`.
    pub fn new(tx: UnboundedSender<Message>, api_key: Option<ApiKey>) -> (client: IrxClient)
        ensures
            client.credential() == api_key,
            client.router() == tx,
            client.holds_receiver(),
            client.replies() == Seq::<Message>::empty(),
    {
        let (message_tx_to_self, message_rx_from_router) = mailbox();
        IrxClient {
            api_key,
            message_tx_to_router: tx,
            message_rx_from_router: Some(message_rx_from_router),
            message_tx_to_self,
            replied: Ghost(Seq::empty()),
        }
    }

    /// The sender of the actor's own mailbox.
    pub closed spec fn mailbox(self) -> UnboundedSender<Message> {
        self.message_tx_to_self
    }

    /// A sender of the actor's mailbox, to register with the router.
    pub fn get_tx_handle(&self) -> (tx: UnboundedSender<Message>)
        ensures
            tx == self.mailbox(),
    {
        another(&self.message_tx_to_self)
    }

    /// Computes [`reaction`] for the credential that the actor holds.
    pub fn respond(&self, message: Message) -> (r: Reaction)
        ensures
            r == reaction(self.credential(), message),
    {
        if !(message.destination == Address::IrxClient) {
            return Reaction::Ignore;
        }
        match message.kind {
            Kind::Ask => {
                let payload = match &self.api_key {
                    Some(key) => Payload::ApiKey(key.duplicate()),
                    None => Payload::Empty,
                };
                Reaction::Reply(
                    Message {
                        source: Address::IrxClient,
                        destination: message.source,
                        payload,
                        tag: None,
                        cacheable: Cacheable::No,
                        kind: Kind::Tell,
                    },
                )
            },
            Kind::Tell => match message.payload {
                Payload::Email(email) => Reaction::Upgrade(email),
                _ => Reaction::Ignore,
            },
        }
    }

    /// What [`IrxClient::handle`] returns once the router's mailbox has
    /// taken the answer or handed it back.
    pub fn replied(sent: Result<(), Message>) -> (h: Handled)
        ensures
            h == Handled::Replied(sent is Ok),
    {
        match sent {
            Ok(()) => Handled::Replied(true),
            Err(_) => Handled::Replied(false),
        }
    }

    /// Handles one message of the actor's mailbox: an answer is offered to
    /// the router, and a request for an upgrade is handed to the caller. An
    /// answer that the router's mailbox takes is recorded; one that it does
    /// not take is dropped.
    pub fn handle(&mut self, message: Message) -> (h: Handled)
        ensures
            final(self).credential() == old(self).credential(),
            final(self).router() == old(self).router(),
            final(self).mailbox() == old(self).mailbox(),
            final(self).holds_receiver() == old(self).holds_receiver(),
            match reaction(old(self).credential(), message) {
                Reaction::Reply(answer) => (h == Handled::Replied(true) && final(self).replies()
                    == old(self).replies().push(answer)) || (h == Handled::Replied(false)
                    && final(self).replies() == old(self).replies()),
                Reaction::Upgrade(email) => h == Handled::Upgrade(email) && final(self).replies()
                    == old(self).replies(),
                Reaction::Ignore => h == Handled::Ignored
                    && final(self).replies() == old(self).replies(),
            },
    {
        match self.respond(message) {
            Reaction::Reply(response) => {
                let ghost offered = response;
                let sent = send(&self.message_tx_to_router, response);
                proof {
                    if sent is Ok {
                        self.replied@ = self.replied@.push(offered);
                    }
                }
                IrxClient::replied(sent)
            },
            Reaction::Upgrade(email) => Handled::Upgrade(email),
            Reaction::Ignore => Handled::Ignored,
        }
    }

    /// Replaces the credential by the one that the service gave for an
    /// email address. The actor answers with it from now on.
    pub fn accept_upgrade(&mut self, key: ApiKey)
        ensures
            final(self).credential() == Some(key),
            final(self).router() == old(self).router(),
            final(self).mailbox() == old(self).mailbox(),
            final(self).replies() == old(self).replies(),
            final(self).holds_receiver() == old(self).holds_receiver(),
    {
        self.api_key = Some(key);
    }

    /// Takes the receiving half of the actor's mailbox out, for the task
    /// that waits on it and hands each message to [`IrxClient::handle`].
    /// There is one such half; a second call returns `None`.
    pub fn take_receiver(&mut self) -> (receiver: Option<UnboundedReceiver<Message>>)
        ensures
            receiver is Some == old(self).holds_receiver(),
            !final(self).holds_receiver(),
            final(self).credential() == old(self).credential(),
            final(self).router() == old(self).router(),
            final(self).mailbox() == old(self).mailbox(),
            final(self).replies() == old(self).replies(),
    {
        self.message_rx_from_router.take()
    }
}

/// An actor without credential answers an `Ask` with an empty payload, and
/// once it has accepted a credential, it answers with that credential.
pub proof fn lemma_answers_follow_credential(key: ApiKey, asker: Address, ask: Message)
    requires
        ask.kind == Kind::Ask,
        ask.source == asker,
        ask.destination == Address::IrxClient,
    ensures
        reaction(None, ask) matches Reaction::Reply(m) && m.payload == Payload::Empty
            && m.destination == asker && m.kind == Kind::Tell,
        reaction(Some(key), ask) matches Reaction::Reply(m) && m.payload == Payload::ApiKey(key)
            && m.destination == asker && m.kind == Kind::Tell,
{
}

} // verus!
