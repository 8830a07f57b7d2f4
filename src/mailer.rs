//! A notifier that records every message it is asked to send.
use vstd::prelude::*;

use crate::messages::{Email, EmailView, email_views};
use crate::services::{GetOutboxService, SendReservationMessageService};

verus! {

/// A notifier that only appends each message to its outbox.
pub struct MockMailer {
    emails: Vec<Email>,
}

impl View for MockMailer {
    type V = Seq<EmailView>;

    closed spec fn view(&self) -> Seq<EmailView> {
        email_views(self.emails@)
    }
}

impl MockMailer {
    /// A notifier with an empty outbox.
    pub fn new() -> (r: Self)
        ensures
            r@ == Seq::<EmailView>::empty(),
    {
        let r = MockMailer { emails: Vec::new() };
        assert(r@ =~= Seq::<EmailView>::empty());
        r
    }
}

impl SendReservationMessageService for MockMailer {
    fn send_message(&mut self, message: Email) {
        let ghost before = self@;
        let ghost m = message@;
        self.emails.push(message);
        assert(self@ =~= before.push(m));
    }
}

impl GetOutboxService for MockMailer {
    fn get_outbox(&self) -> (r: Vec<Email>) {
        let r = self.emails.clone();
        assert(r@ =~= self.emails@);
        r
    }
}

} // verus!
