//! Messages between components, and the router that forwards them.
//!
//! Every component and actor has a mailbox, registered with the router under
//! an address. A message names the address it is for; the router looks the
//! address up and hands the message, unchanged, to the mailbox registered
//! there. A message for an address that nobody registered is an error of the
//! program's wiring, and the router says so instead of dropping it.

use crate::channel::{another, mailbox, pending, poll, send, Polled};
use crate::irx_client::api::ApiKey;
use std::collections::HashMap;
use tokio::sync::mpsc::{UnboundedReceiver, UnboundedSender};
use vstd::prelude::*;

verus! {

broadcast use vstd::std_specs::hash::group_hash_axioms;

/// A validated email address.
#[verifier::external_type_specification]
#[verifier::external_body]
pub struct ExEmailAddress(email_address::EmailAddress);

/// Copies an email address.
///
/// Trusted: `EmailAddress` derives `Clone`, so the copy holds the same text
/// as the address it was made from.
pub assume_specification[ <email_address::EmailAddress as Clone>::clone ](
    email: &email_address::EmailAddress,
) -> (copy: email_address::EmailAddress)
    ensures
        copy == *email,
;

/// What a message carries.
#[derive(Debug, Clone, PartialEq, Eq, Hash)]
pub enum Payload {
    Empty,
    ApiKey(ApiKey),
    Email(email_address::EmailAddress),
    String(String),
}

impl Default for Payload {
    fn default() -> (payload: Payload)
        ensures
            payload == Payload::Empty,
    {
        Payload::Empty
    }
}

/// The logical endpoints of the application. An address is a key of the
/// router's table and nothing more.
#[derive(Debug, Copy, Clone, PartialEq, Eq, Hash, Structural)]
pub enum Address {
    /// No endpoint: the address of a message that is not yet for anyone.
    Drop,
    Router,
    IrxClient,
    Internals,
    StateDisplay,
    Session,
    Home,
    App,
    About,
}

impl Default for Address {
    fn default() -> (address: Address)
        ensures
            address == Address::Drop,
    {
        Address::Drop
    }
}

impl Address {
    /// The number that stands for the address in the router's table. No two
    /// addresses have the same.
    pub open spec fn code(self) -> u64 {
        match self {
            Address::Drop => 0,
            Address::Router => 1,
            Address::IrxClient => 2,
            Address::Internals => 3,
            Address::StateDisplay => 4,
            Address::Session => 5,
            Address::Home => 6,
            Address::App => 7,
            Address::About => 8,
        }
    }

    /// Computes [`Address::code`].
    pub fn key(self) -> (code: u64)
        ensures
            code == self.code(),
    {
        match self {
            Address::Drop => 0,
            Address::Router => 1,
            Address::IrxClient => 2,
            Address::Internals => 3,
            Address::StateDisplay => 4,
            Address::Session => 5,
            Address::Home => 6,
            Address::App => 7,
            Address::About => 8,
        }
    }
}

/// Whether a message may be kept for later use. The router does not read it.
#[derive(Debug, Copy, Clone, PartialEq, Eq, Hash, Structural)]
pub enum Cacheable {
    No,
    Yes,
}

impl Default for Cacheable {
    fn default() -> (cacheable: Cacheable)
        ensures
            cacheable == Cacheable::No,
    {
        Cacheable::No
    }
}

/// Whether a message informs or asks. Who receives an `Ask` owes the asker a
/// `Tell` in return.
#[derive(Debug, Copy, Clone, PartialEq, Eq, Hash, Structural)]
pub enum Kind {
    Tell,
    Ask,
}

impl Default for Kind {
    fn default() -> (kind: Kind)
        ensures
            kind == Kind::Tell,
    {
        Kind::Tell
    }
}

/// A message from one endpoint to another.
#[derive(Debug, Clone, PartialEq, Eq, Hash)]
pub struct Message {
    pub source: Address,
    pub destination: Address,
    pub payload: Payload,
    pub tag: Option<String>,
    pub cacheable: Cacheable,
    pub kind: Kind,
}

impl Default for Message {
    fn default() -> (message: Message)
        ensures
            message == (Message {
                source: Address::Drop,
                destination: Address::Drop,
                payload: Payload::Empty,
                tag: None,
                cacheable: Cacheable::No,
                kind: Kind::Tell,
            }),
    {
        Message {
            source: Address::Drop,
            destination: Address::Drop,
            payload: Payload::Empty,
            tag: None,
            cacheable: Cacheable::No,
            kind: Kind::Tell,
        }
    }
}

/// Why a message was not forwarded. Either way the message comes back.
#[derive(Debug, Clone, PartialEq, Eq)]
pub enum RouteError {
    /// No mailbox is registered under the address that the message is for.
    Unregistered(Message),
    /// The mailbox registered under the address took no message: its
    /// receiving half is closed or gone.
    Closed(Message),
}

/// One message handed to a mailbox: the address it was for, the mailbox
/// that was registered there, and the message.
pub struct Delivery {
    pub to: Address,
    pub mailbox: UnboundedSender<Message>,
    pub message: Message,
}

/// The messages of a list of deliveries that went to the given address, in
/// the order of the list.
pub open spec fn messages_to(deliveries: Seq<Delivery>, address: Address) -> Seq<Message>
    decreases deliveries.len(),
{
    if deliveries.len() == 0 {
        Seq::empty()
    } else {
        let before = messages_to(deliveries.drop_last(), address);
        if deliveries.last().to == address {
            before.push(deliveries.last().message)
        } else {
            before
        }
    }
}

/// The table of mailboxes, and the record of what was handed to them.
pub struct Router {
    channel_table: HashMap<u64, UnboundedSender<Message>>,
    message_rx_from_self: Option<UnboundedReceiver<Message>>,
    delivered: Ghost<Seq<Delivery>>,
}

impl Router {
    /// The mailbox registered under each address, by the address's code.
    pub closed spec fn table(self) -> Map<u64, UnboundedSender<Message>> {
        self.channel_table@
    }

    /// Every message that a mailbox has taken from this router, in the order
    /// in which they were handed over.
    pub closed spec fn deliveries(self) -> Seq<Delivery> {
        self.delivered@
    }

    /// Whether the router still holds the receiving half of its own mailbox.
    pub closed spec fn holds_receiver(self) -> bool {
        self.message_rx_from_self is Some
    }

    /// Whether a mailbox is registered under the address.
    pub open spec fn is_registered(self, address: Address) -> bool {
        self.table().contains_key(address.code())
    }

    /// The mailbox registered under the address.
    pub open spec fn mailbox_of(self, address: Address) -> UnboundedSender<Message> {
        self.table()[address.code()]
    }

    /// The messages that the mailboxes registered under the address have
    /// taken, in the order in which they were handed over.
    pub open spec fn delivered_to(self, address: Address) -> Seq<Message> {
        messages_to(self.deliveries(), address)
    }

    /// A router with a mailbox of its own, and the sender of that mailbox.
    /// The given sender is registered as the application's, and the router's
    /// own under the router's address.
    pub fn new(tx: UnboundedSender<Message>) -> (made: (Router, UnboundedSender<Message>))
        ensures
            made.0.table() == Map::<u64, UnboundedSender<Message>>::empty().insert(
                Address::App.code(),
                tx,
            ).insert(Address::Router.code(), made.1),
            made.0.deliveries() == Seq::<Delivery>::empty(),
            made.0.holds_receiver(),
    {
        let (message_tx_to_self, message_rx_from_self) = mailbox();
        let mut channel_table: HashMap<u64, UnboundedSender<Message>> = HashMap::new();
        channel_table.insert(Address::App.key(), tx);
        channel_table.insert(Address::Router.key(), another(&message_tx_to_self));
        (
            Router {
                channel_table,
                message_rx_from_self: Some(message_rx_from_self),
                delivered: Ghost(Seq::empty()),
            },
            message_tx_to_self,
        )
    }

    /// Registers a mailbox under an address. A mailbox that was registered
    /// there before is replaced.
    pub fn register(&mut self, addr: Address, tx: UnboundedSender<Message>)
        ensures
            final(self).table() == old(self).table().insert(addr.code(), tx),
            final(self).deliveries() == old(self).deliveries(),
            final(self).holds_receiver() == old(self).holds_receiver(),
    {
        self.channel_table.insert(addr.key(), tx);
    }

    /// What [`Router::route`] returns once the mailbox of the message's
    /// address has taken the message or handed it back.
    pub fn outcome(sent: Result<(), Message>) -> (r: Result<(), RouteError>)
        ensures
            r == match sent {
                Ok(()) => Ok::<(), RouteError>(()),
                Err(returned) => Err::<(), RouteError>(RouteError::Closed(returned)),
            },
    {
        match sent {
            Ok(()) => Ok(()),
            Err(returned) => Err(RouteError::Closed(returned)),
        }
    }

    /// Whether a mailbox is registered under the address.
    pub fn has_mailbox(&self, address: Address) -> (known: bool)
        ensures
            known == self.is_registered(address),
    {
        self.channel_table.contains_key(&address.key())
    }

    /// Whether `self` is the router that `before` becomes by handing the
    /// message to the mailbox registered under its destination, with the
    /// result `r`, as [`Router::route`] does.
    ///
    /// The table is left alone. Either the result is `Ok` and the delivery
    /// of the message to that mailbox is recorded last, or the message comes
    /// back as [`RouteError::Closed`] and nothing is recorded.
    pub open spec fn routed(self, before: Router, message: Message, r: Result<(), RouteError>)
        -> bool {
        &&& self.table() == before.table()
        &&& self.holds_receiver() == before.holds_receiver()
        &&& {
            ||| r is Ok && self.deliveries() == before.deliveries().push(
                Delivery {
                    to: message.destination,
                    mailbox: before.mailbox_of(message.destination),
                    message,
                },
            )
            ||| r == Err::<(), RouteError>(RouteError::Closed(message)) && self.deliveries()
                == before.deliveries()
        }
    }

    /// Whether `self` is the router that `before` becomes by dealing with a
    /// message that came in, with the result `r`, as [`Router::forward`]
    /// does.
    ///
    /// Without a mailbox registered under the destination, the message comes
    /// back as [`RouteError::Unregistered`], nothing is handed to anyone and
    /// the router is left as it was. With one, the message is handed to it
    /// as [`Router::routed`] says.
    pub open spec fn forwarded(
        self,
        before: Router,
        message: Message,
        r: Result<(), RouteError>,
    ) -> bool {
        if before.is_registered(message.destination) {
            self.routed(before, message, r)
        } else {
            r == Err::<(), RouteError>(RouteError::Unregistered(message)) && self == before
        }
    }

    /// Hands a message to the mailbox registered under its destination.
    ///
    /// A mailbox has to be registered there: a message for an address
    /// without one is a fault in the wiring of the application, which
    /// [`Router::has_mailbox`] finds out beforehand. That mailbox and no
    /// other is offered the message, unchanged; if it takes it, the delivery
    /// is recorded, and if not, the message comes back as
    /// [`RouteError::Closed`].
    pub fn route(&mut self, message: Message) -> (r: Result<(), RouteError>)
        requires
            old(self).is_registered(message.destination),
        ensures
            final(self).routed(*old(self), message, r),
    {
        let to = message.destination;
        match self.channel_table.get(&to.key()) {
            Some(tx) => {
                let ghost handed = message;
                let ghost mailbox = *tx;
                let sent = send(tx, message);
                proof {
                    if sent is Ok {
                        self.delivered@ = self.delivered@.push(
                            Delivery { to, mailbox, message: handed },
                        );
                    }
                }
                Router::outcome(sent)
            },
            // Not taken: a mailbox is registered under the destination.
            None => Err(RouteError::Unregistered(message)),
        }
    }

    /// Takes the receiving half of the router's own mailbox out, for a task
    /// that waits on it and hands each message to [`Router::route`]. There is
    /// one such half; a second call returns `None`.
    pub fn take_receiver(&mut self) -> (receiver: Option<UnboundedReceiver<Message>>)
        ensures
            receiver is Some == old(self).holds_receiver(),
            !final(self).holds_receiver(),
            final(self).table() == old(self).table(),
            final(self).deliveries() == old(self).deliveries(),
    {
        self.message_rx_from_self.take()
    }

    /// Deals with what the router's own mailbox answered when it was asked
    /// for a message. A message for an address with a mailbox is handed to
    /// that mailbox as [`Router::route`] does, and the result of that is
    /// returned; a message for an address without one comes back as
    /// [`RouteError::Unregistered`], for the caller to stop on. A mailbox
    /// without message changes nothing and gives `None`.
    pub fn forward(&mut self, polled: Polled) -> (r: Option<Result<(), RouteError>>)
        ensures
            match polled {
                Polled::Message(message) => r matches Some(routed) && final(self).forwarded(
                    *old(self),
                    message,
                    routed,
                ),
                _ => r is None && *final(self) == *old(self),
            },
    {
        match polled {
            Polled::Message(message) => {
                if self.has_mailbox(message.destination) {
                    Some(self.route(message))
                } else {
                    Some(Err(RouteError::Unregistered(message)))
                }
            },
            _ => None,
        }
    }

    /// Forwards the messages that wait in the router's own mailbox, oldest
    /// first, and returns how many were forwarded.
    ///
    /// Only the messages that wait when the call begins are looked at, each
    /// dealt with as [`Router::forward`] says. The call stops at the first
    /// message that cannot be forwarded and returns the error of
    /// [`Router::route`] for it. Every message that was forwarded went to
    /// the mailbox registered under its destination, and is recorded behind
    /// the deliveries of before. A router whose receiving half was taken out
    /// looks at nothing, changes nothing and returns `Ok(0)`.
    pub fn run(&mut self) -> (r: Result<usize, RouteError>)
        ensures
            final(self).table() == old(self).table(),
            final(self).holds_receiver() == old(self).holds_receiver(),
            !old(self).holds_receiver() ==> r == Ok::<usize, RouteError>(0) && final(self).deliveries() == old(self).deliveries(),
            old(self).deliveries().is_prefix_of(final(self).deliveries()),
            forall|i: int|
                old(self).deliveries().len() <= i < final(self).deliveries().len() ==> {
                    let d = #[trigger] final(self).deliveries()[i];
                    old(self).is_registered(d.to) && d.mailbox == old(self).mailbox_of(d.to)
                        && d.message.destination == d.to
                },
            r matches Ok(count) ==> final(self).deliveries().len() == old(self).deliveries().len()
                + count,
            r matches Err(RouteError::Unregistered(message)) ==> !old(self).is_registered(
                message.destination,
            ),
            r matches Err(RouteError::Closed(message)) ==> old(self).is_registered(
                message.destination,
            ),
    {
        let mut receiver = match self.message_rx_from_self.take() {
            Some(receiver) => receiver,
            None => {
                return Ok(0);
            },
        };
        let waiting = pending(&receiver);
        let mut count: usize = 0;
        let mut seen: usize = 0;
        let mut failure: Option<RouteError> = None;
        while seen < waiting && failure.is_none()
            invariant
                seen <= waiting,
                count <= seen,
                self.table() == old(self).table(),
                self.message_rx_from_self is None,
                old(self).deliveries().is_prefix_of(self.deliveries()),
                self.deliveries().len() == old(self).deliveries().len() + count,
                forall|i: int|
                    old(self).deliveries().len() <= i < self.deliveries().len() ==> {
                        let d = #[trigger] self.deliveries()[i];
                        old(self).is_registered(d.to) && d.mailbox == old(self).mailbox_of(d.to)
                            && d.message.destination == d.to
                    },
                failure matches Some(RouteError::Unregistered(message))
                    ==> !old(self).is_registered(message.destination),
                failure matches Some(RouteError::Closed(message)) ==> old(self).is_registered(
                    message.destination,
                ),
            decreases waiting - seen, if failure is None { 1int } else { 0int },
        {
            match self.forward(poll(&mut receiver)) {
                Some(Ok(())) => {
                    count += 1;
                    seen += 1;
                },
                Some(Err(error)) => {
                    failure = Some(error);
                    seen += 1;
                },
                None => {
                    seen = waiting;
                },
            }
        }
        self.message_rx_from_self = Some(receiver);
        match failure {
            Some(error) => Err(error),
            None => Ok(count),
        }
    }
}

/// No two addresses share a code, so a mailbox registered under one address
/// is never found under another.
pub proof fn lemma_address_codes_are_distinct(a: Address, b: Address)
    ensures
        a.code() == b.code() <==> a == b,
{
}

/// Once a mailbox is registered under an address, it is the mailbox of
/// that address, and the mailbox of every other address is the one it was.
pub proof fn lemma_registration(
    table: Map<u64, UnboundedSender<Message>>,
    address: Address,
    mailbox: UnboundedSender<Message>,
    other: Address,
)
    ensures
        table.insert(address.code(), mailbox).contains_key(address.code()),
        table.insert(address.code(), mailbox)[address.code()] == mailbox,
        other != address ==> table.insert(address.code(), mailbox).contains_key(other.code())
            == table.contains_key(other.code()),
        other != address && table.contains_key(other.code()) ==> table.insert(
            address.code(),
            mailbox,
        )[other.code()] == table[other.code()],
{
    lemma_address_codes_are_distinct(address, other);
}

/// What was handed to the mailboxes of an address grows by exactly the
/// message that is forwarded there, and stays as it is for every other
/// address: messages for one address arrive in the order in which they were
/// forwarded, and none is made up or lost on the way to the mailbox.
pub proof fn lemma_delivery_order(
    before: Seq<Delivery>,
    to: Address,
    mailbox: UnboundedSender<Message>,
    message: Message,
    address: Address,
)
    ensures
        messages_to(before.push(Delivery { to, mailbox, message }), address) == if address == to {
            messages_to(before, address).push(message)
        } else {
            messages_to(before, address)
        },
{
    let after = before.push(Delivery { to, mailbox, message });
    assert(after.drop_last() == before);
}

} // verus!
