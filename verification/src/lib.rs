//! A relay of messages between chat platforms.
//!
//! A message written on one platform becomes a canonical [`message::Message`]
//! and travels as a [`broadcast::MessageEvent`] through the
//! [`broadcast::Broadcaster`] to every other platform. Each platform keeps
//! a [`cache::CorrelationCache`], which tells which of its own messages
//! stands for which relayed message, so that replies, edits and deletions
//! find their target. On the way out the markup of a message is converted
//! to text with formatting spans ([`entities`]); on the way in the spans of
//! a platform are written back as markup ([`unparse`]).
//!
//! The modules [`telegram`] and [`discord`] hold what each platform needs
//! decided: what a message of the platform says, and what the platform is
//! asked to do for an event. They reach no network; the calls themselves
//! are made by the program around this library.

pub mod backends;
pub mod broadcast;
pub mod cache;
pub mod config;
pub mod discord;
pub mod entities;
pub mod markup;
pub mod message;
pub mod minicord;
pub mod pattern;
pub mod storage;
pub mod telegram;
pub mod text;
pub mod unparse;
