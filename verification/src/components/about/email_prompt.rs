//! The prompt for an email address.
//!
//! The prompt owns what was typed and knows whether it is an email address.
//! The text field itself, with its cursor and its editing keys, belongs to
//! whoever draws it: a key that the prompt does not act on is handed back as
//! [`PromptStep::Edit`], and the text that results is reported with
//! [`EmailPrompt::text_changed`].

use crate::action::mode::Mode;
use crate::action::Action;
use crate::channel::send;
use crate::config::keys::{KeyCode, KeyEvent, KeyEventKind, KeyModifiers};
use crate::router::{Address, Cacheable, Kind, Message, Payload};
use tokio::sync::mpsc::UnboundedSender;
use vstd::prelude::*;
use vstd::utf8::encode_utf8;

verus! {

/// The email address that a text is, if it is one.
pub uninterp spec fn parsed_email(text: Seq<char>) -> Option<email_address::EmailAddress>;

/// Whether the text is an email address.
pub open spec fn email_accepted(text: Seq<char>) -> bool {
    parsed_email(text) is Some
}

/// Reads an email address.
///
/// Trusted: the body calls `EmailAddress::from_str` of the crate
/// `email_address` through `str::parse`. What that call makes of a text is a
/// function of the text alone; the contract names it and says no more.
#[verifier::external_body]
fn read_email(text: &str) -> (email: Option<email_address::EmailAddress>)
    ensures
        email == parsed_email(text@),
{
    text.parse::<email_address::EmailAddress>().ok()
}

/// The longest text, in bytes, that the prompt lets grow.
pub const LINE_LIMIT: usize = 80;

/// What the prompt did with a key.
#[derive(Debug, Copy, Clone, PartialEq, Eq, Hash, Structural)]
pub enum PromptStep {
    /// The prompt was left, and keeps its text.
    Closed,
    /// The address was sent off, and the prompt was emptied and left.
    Submitted,
    /// The address could not be sent off; the prompt was left, and keeps its
    /// text.
    SendFailed,
    /// The key is for the text field: apply it there, and report the text.
    Edit,
    /// The text had reached its limit: the prompt was emptied and left.
    Cleared,
}

/// What a key is to the prompt.
pub enum KeyKind {
    /// The key leaves the prompt.
    Leave,
    /// The key submits the text, which is an email address.
    Submit,
    /// The key is for the text field, whose text is shorter than the limit.
    Type,
    /// The key is for the text field, but the text has reached the limit.
    Overflow,
}

/// The prompt for an email address.
pub struct EmailPrompt {
    pub message_tx_to_router: UnboundedSender<Message>,
    pub owner: Address,
    pub line: String,
    pub is_active: bool,
    pub is_valid: bool,
    pub told: Ghost<Seq<Message>>,
}

/// The message that tells the credential actor an email address.
pub open spec fn upgrade_request(owner: Address, email: email_address::EmailAddress) -> Message {
    Message {
        source: owner,
        destination: Address::IrxClient,
        payload: Payload::Email(email),
        tag: None,
        cacheable: Cacheable::No,
        kind: Kind::Tell,
    }
}

/// Whether the key leaves the prompt: escape, or `c` with control. The
/// release of a key is no key.
pub open spec fn leaves(key: KeyEvent) -> bool {
    key.kind != KeyEventKind::Release && (key.code == KeyCode::Esc || (key.code == KeyCode::Char(
        'c',
    ) && key.modifiers.has(KeyModifiers::CONTROL)))
}

/// Whether the key submits the text: enter.
pub open spec fn submits(key: KeyEvent) -> bool {
    key.kind != KeyEventKind::Release && key.code == KeyCode::Enter
}

impl EmailPrompt {
    /// Whether the prompt is empty, left and without a valid address: the
    /// state at the start and after every reset.
    pub open spec fn is_reset(self) -> bool {
        self.line@.len() == 0 && !self.is_active && !self.is_valid
    }

    /// The prompt of the about scene: empty and not active.
    pub fn new(tx: UnboundedSender<Message>) -> (prompt: EmailPrompt)
        ensures
            prompt.is_reset(),
            prompt.owner == Address::About,
            prompt.message_tx_to_router == tx,
            prompt.told@ == Seq::<Message>::empty(),
    {
        EmailPrompt::owned_by(tx, Address::About)
    }

    /// The prompt of the component at the given address: empty and not
    /// active.
    pub fn owned_by(tx: UnboundedSender<Message>, owner: Address) -> (prompt: EmailPrompt)
        ensures
            prompt.is_reset(),
            prompt.owner == owner,
            prompt.message_tx_to_router == tx,
            prompt.told@ == Seq::<Message>::empty(),
    {
        EmailPrompt {
            message_tx_to_router: tx,
            owner,
            line: String::new(),
            is_active: false,
            is_valid: false,
            told: Ghost(Seq::empty()),
        }
    }

    /// Enters the prompt, and asks for the mode in which keys are text.
    pub fn activate(&mut self) -> (answer: Option<Action>)
        ensures
            answer == Some(Action::ChangeMode(Mode::TextInput)),
            final(self).is_active,
            *final(self) == (EmailPrompt { is_active: true, ..*old(self) }),
    {
        self.is_active = true;
        Some(Action::ChangeMode(Mode::TextInput))
    }

    /// Leaves the prompt.
    pub fn deactivate(&mut self)
        ensures
            *final(self) == (EmailPrompt { is_active: false, ..*old(self) }),
    {
        self.is_active = false;
    }

    /// Whether the prompt is entered.
    pub fn is_active(&self) -> (active: bool)
        ensures
            active == self.is_active,
    {
        self.is_active
    }

    /// Empties the prompt and leaves it.
    pub fn reset(&mut self)
        ensures
            final(self).is_reset(),
            final(self).owner == old(self).owner,
            final(self).message_tx_to_router == old(self).message_tx_to_router,
            final(self).told == old(self).told,
    {
        self.line = String::new();
        self.is_valid = false;
        self.deactivate();
    }

    /// Finds out whether the text is an email address, and remembers it.
    pub fn validate(&mut self) -> (valid: bool)
        ensures
            valid == email_accepted(old(self).line@),
            *final(self) == (EmailPrompt { is_valid: valid, ..*old(self) }),
    {
        self.is_valid = read_email(self.line.as_str()).is_some();
        self.is_valid
    }

    /// The text as an email address, if it is one.
    pub fn get_email(&self) -> (email: Option<email_address::EmailAddress>)
        ensures
            email == parsed_email(self.line@),
    {
        read_email(self.line.as_str())
    }

    /// Offers the router the message that tells the credential actor the
    /// address. Returns whether the router's mailbox took it.
    fn upgrade_api_key(&mut self, email: email_address::EmailAddress) -> (sent: bool)
        ensures
            final(self).told@ == if sent {
                old(self).told@.push(upgrade_request(old(self).owner, email))
            } else {
                old(self).told@
            },
            *final(self) == (EmailPrompt { told: final(self).told, ..*old(self) }),
    {
        let request = Message {
            source: self.owner,
            destination: Address::IrxClient,
            payload: Payload::Email(email),
            tag: None,
            cacheable: Cacheable::No,
            kind: Kind::Tell,
        };
        let ghost offered = request;
        match send(&self.message_tx_to_router, request) {
            Ok(()) => {
                proof {
                    self.told@ = self.told@.push(offered);
                }
                true
            },
            Err(_) => false,
        }
    }

    /// What becomes of the prompt once the router's mailbox has taken the
    /// address or not: a prompt whose address was taken is emptied, and one
    /// whose address was not taken keeps its text.
    pub fn submitted(&mut self, sent: bool) -> (step: PromptStep)
        ensures
            final(self).owner == old(self).owner,
            final(self).message_tx_to_router == old(self).message_tx_to_router,
            final(self).told == old(self).told,
            if sent {
                step == PromptStep::Submitted && final(self).is_reset()
            } else {
                step == PromptStep::SendFailed && *final(self) == *old(self)
            },
    {
        if sent {
            self.reset();
            PromptStep::Submitted
        } else {
            PromptStep::SendFailed
        }
    }

    /// What a key is to the prompt.
    pub open spec fn key_kind(self, key: KeyEvent) -> KeyKind {
        if leaves(key) {
            KeyKind::Leave
        } else if submits(key) && email_accepted(self.line@) {
            KeyKind::Submit
        } else if encode_utf8(self.line@).len() < LINE_LIMIT {
            KeyKind::Type
        } else {
            KeyKind::Overflow
        }
    }

    /// Whether `self` is the prompt that `before` becomes by taking the key
    /// with the step `step`, as [`EmailPrompt::handle_key_event`] does.
    ///
    /// * A key that leaves the prompt leaves it: the step is `Closed`.
    /// * Enter, when the text is an email address, leaves the prompt and
    ///   offers the router the message that tells the credential actor the
    ///   address. If the router took it, the message is recorded, the prompt
    ///   is emptied and the step is `Submitted`; if not, the prompt keeps its
    ///   text and the step is `SendFailed`.
    /// * Any other key is for the text field, as long as the text is
    ///   shorter than the limit: the step is `Edit`. Once it is not, the
    ///   prompt is emptied and left: the step is `Cleared`.
    ///
    /// Whether the text is an email address is found out first, and
    /// remembered. Owner and sender stay.
    pub open spec fn took(self, before: EmailPrompt, key: KeyEvent, step: PromptStep) -> bool {
        &&& self.owner == before.owner
        &&& self.message_tx_to_router == before.message_tx_to_router
        &&& match before.key_kind(key) {
            KeyKind::Leave => step == PromptStep::Closed && self == (EmailPrompt {
                is_active: false,
                is_valid: email_accepted(before.line@),
                ..before
            }),
            KeyKind::Submit => (step == PromptStep::Submitted && self.is_reset() && self.told@
                == before.told@.push(
                upgrade_request(before.owner, parsed_email(before.line@)->Some_0),
            )) || (step == PromptStep::SendFailed && self == (EmailPrompt {
                is_active: false,
                is_valid: true,
                ..before
            })),
            KeyKind::Type => step == PromptStep::Edit && self == (EmailPrompt {
                is_valid: email_accepted(before.line@),
                ..before
            }),
            KeyKind::Overflow => step == PromptStep::Cleared && self.is_reset() && self.told
                == before.told,
        }
    }

    /// Handles a key while the prompt is entered, as [`EmailPrompt::took`]
    /// says.
    pub fn handle_key_event(&mut self, key_event: KeyEvent) -> (step: PromptStep)
        ensures
            final(self).took(*old(self), key_event, step),
    {
        self.validate();
        let released = match key_event.kind {
            KeyEventKind::Release => true,
            _ => false,
        };
        let leaving = !released && (key_event.code == KeyCode::Esc || (key_event.code
            == KeyCode::Char('c') && key_event.modifiers.contains(KeyModifiers::CONTROL)));
        let submitting = !released && key_event.code == KeyCode::Enter;
        if leaving {
            self.deactivate();
            PromptStep::Closed
        } else if submitting && self.is_valid {
            self.deactivate();
            match self.get_email() {
                Some(email) => {
                    let sent = self.upgrade_api_key(email);
                    self.submitted(sent)
                },
                None => PromptStep::SendFailed,
            }
        } else if self.line.as_str().as_bytes().len() < LINE_LIMIT {
            PromptStep::Edit
        } else {
            self.reset();
            PromptStep::Cleared
        }
    }

    /// Takes the text over that the text field holds after a key, and finds
    /// out anew whether it is an email address if the key changed it.
    pub fn text_changed(&mut self, line: String, modified: bool)
        ensures
            *final(self) == (EmailPrompt {
                line,
                is_valid: if modified {
                    email_accepted(line@)
                } else {
                    old(self).is_valid
                },
                ..*old(self)
            }),
    {
        self.line = line;
        if modified {
            self.validate();
        }
    }
}

} // verus!
