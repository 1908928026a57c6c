//! The coordination core of a terminal application.
//!
//! The application is made of components that watch a shared, changing
//! state and talk to each other without sharing memory. This crate holds what
//! coordinates them:
//!
//! * [`action`]: the typed events that change the state, and how the
//!   configuration writes them;
//! * [`router`]: messages between components, and the router that forwards
//!   them by address;
//! * [`irx_client`]: the actor that owns the credential of the remote
//!   service;
//! * [`components`]: what each component remembers, and how actions and
//!   events change it, with the bridge by which a draw gets the credential;
//! * [`app`]: the decisions of the dispatch loop;
//! * [`tui`]: the events of the terminal driver;
//! * [`config`]: key bindings and styles, and their grammars;
//! * [`text`]: the vocabulary of the grammars;
//! * [`channel`]: the mailboxes.
//!
//! Waiting, drawing, files and the network are the caller's business. The
//! crate decides, and says in its contracts what it decides.

pub mod action;
pub mod app;
pub mod channel;
pub mod components;
pub mod config;
pub mod irx_client;
pub mod router;
pub mod text;
pub mod tui;
