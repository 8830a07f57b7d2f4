//! An in-memory reservation booking service: a store of users and
//! reservations, a notifier with an outbox, and the request handlers that
//! sequence store changes with notifications.
use vstd::prelude::*;


pub mod database;
pub mod entities;
pub mod handlers;
pub mod mailer;


pub mod messages;
pub mod services;

verus! {

} // verus!
