//! A Telegram adapter for the Shinobu bot framework: its decisions.
//!
//! Incoming: an [`update::Update`] becomes an [`event::Event`]
//! ([`convert::convert_update`]); the marked spans of its text become mentions
//! and a command ([`command`]).
//!
//! Outgoing: an event is checked ([`outgoing::TelegramAdapter::send`]) and its
//! message becomes a list of requests to Telegram
//! ([`outgoing::send_message_items`]), for which files and images are prepared
//! ([`media`]).
//!
//! In between: the plugin is loaded, run and unloaded ([`plugin`]).
//!
//! Every function states in its contract what it returns, over the models of
//! the types (their `deep_view`). What holds of several functions together is
//! in [`laws`], or next to what it is about; what becomes of each part of an
//! update and of an event is in [`laws_incoming`] and [`laws_outgoing`], over
//! [`laws_text`] and [`laws_models`].

pub mod command;
pub mod convert;
pub mod decimal;
pub mod entity;
pub mod event;
pub mod laws;
pub mod laws_incoming;
pub mod laws_models;
pub mod laws_outgoing;
pub mod laws_text;
pub mod media;
pub mod outgoing;
pub mod plugin;
pub mod text;
pub mod update;
