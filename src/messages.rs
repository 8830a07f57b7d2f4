//! Notification messages.
use vstd::prelude::*;
use vstd::string::StringExecFns;

use crate::services::ReservationMessageService;

verus! {

/// An outbound notification.
pub struct Email {
    pub to: String,
    pub subject: String,
    pub body: String,
}

/// What a message is, as plain values.
pub struct EmailView {
    pub to: Seq<char>,
    pub subject: Seq<char>,
    pub body: Seq<char>,
}

impl View for Email {
    type V = EmailView;

    open spec fn view(&self) -> EmailView {
        EmailView { to: self.to@, subject: self.subject@, body: self.body@ }
    }
}

impl Clone for Email {
    fn clone(&self) -> (r: Self)
        ensures
            r == *self,
    {
        Email { to: self.to.clone(), subject: self.subject.clone(), body: self.body.clone() }
    }
}

/// The views of a sequence of messages, in the same order.
pub open spec fn email_views(s: Seq<Email>) -> Seq<EmailView> {
    s.map_values(|e: Email| e@)
}

/// The message that tells `to` that `name`'s reservation of `room` was created.
pub open spec fn created_message(to: Seq<char>, name: Seq<char>, room: Seq<char>) -> EmailView {
    EmailView {
        to,
        subject: "Reservation created"@,
        body: "Hello, "@ + name + ". Your reservation for room "@ + room + " has been created"@,
    }
}

/// The message that tells `to` that `name`'s reservation of `room` was cancelled.
pub open spec fn cancelled_message(to: Seq<char>, name: Seq<char>, room: Seq<char>) -> EmailView {
    EmailView {
        to,
        subject: "Reservation cancelled"@,
        body: "Hello, "@ + name + ". Your reservation for room "@ + room
            + " has been cancelled"@,
    }
}

impl ReservationMessageService for Email {
    fn reservation_created_message(to: String, name: String, room: String) -> (r: Self) {
        let body = String::from_str("Hello, ").concat(name.as_str()).concat(
            ". Your reservation for room ",
        ).concat(room.as_str()).concat(" has been created");
        Email { to, subject: String::from_str("Reservation created"), body }
    }

    fn reservation_cancelled_message(to: String, name: String, room: String) -> (r: Self) {
        let body = String::from_str("Hello, ").concat(name.as_str()).concat(
            ". Your reservation for room ",
        ).concat(room.as_str()).concat(" has been cancelled");
        Email { to, subject: String::from_str("Reservation cancelled"), body }
    }
}

} // verus!
