//! The capability interfaces that the request handlers are written against:
//! a store of users and reservations, a sender of notification messages with
//! an inspectable outbox, and the record types they exchange.
use vstd::prelude::*;

use crate::entities::{Reservation, ReservationView, User, UserView, RequestView};
use crate::messages::{Email, EmailView, created_message, cancelled_message};

verus! {

/// What a store holds, as plain values: its reservations and its users.
pub struct DatabaseView {
    pub reservations: Seq<ReservationView>,
    pub users: Seq<UserView>,
}

/// The views of a sequence of reservations, in the same order.
pub open spec fn reservation_views(s: Seq<Reservation>) -> Seq<ReservationView> {
    s.map_values(|r: Reservation| r@)
}

/// The views of a sequence of users, in the same order.
pub open spec fn user_views(s: Seq<User>) -> Seq<UserView> {
    s.map_values(|u: User| u@)
}

impl DatabaseView {
    /// The store with no reservations and no users.
    pub open spec fn empty() -> DatabaseView {
        DatabaseView { reservations: Seq::empty(), users: Seq::empty() }
    }

    /// No two reservations share an id, and no two users share an email.
    pub open spec fn well_formed(self) -> bool {
        &&& forall|i: int, j: int|
            0 <= i < j < self.reservations.len() ==> self.reservations[i].id
                != self.reservations[j].id
        &&& forall|i: int, j: int|
            0 <= i < j < self.users.len() ==> self.users[i].email != self.users[j].email
    }

    pub open spec fn has_reservation(self, id: u64) -> bool {
        exists|i: int| 0 <= i < self.reservations.len() && self.reservations[i].id == id
    }

    /// Where the reservation with this id stands (meaningful when there is one).
    pub open spec fn reservation_index(self, id: u64) -> int {
        choose|i: int| 0 <= i < self.reservations.len() && self.reservations[i].id == id
    }

    /// The reservation with this id (meaningful when there is one).
    pub open spec fn reservation(self, id: u64) -> ReservationView {
        self.reservations[self.reservation_index(id)]
    }

    pub open spec fn has_user(self, email: Seq<char>) -> bool {
        exists|i: int| 0 <= i < self.users.len() && self.users[i].email == email
    }

    /// Where the user with this email stands (meaningful when there is one).
    pub open spec fn user_index(self, email: Seq<char>) -> int {
        choose|i: int| 0 <= i < self.users.len() && self.users[i].email == email
    }

    /// The user with this email (meaningful when there is one).
    pub open spec fn user(self, email: Seq<char>) -> UserView {
        self.users[self.user_index(email)]
    }

    /// Stores `r`: it replaces the reservation with the same id where there
    /// is one, and is appended otherwise.
    pub open spec fn put_reservation(self, r: ReservationView) -> DatabaseView {
        DatabaseView {
            reservations: if self.has_reservation(r.id) {
                self.reservations.update(self.reservation_index(r.id), r)
            } else {
                self.reservations.push(r)
            },
            users: self.users,
        }
    }

    /// Removes the reservation with this id, if there is one.
    pub open spec fn without_reservation(self, id: u64) -> DatabaseView {
        DatabaseView {
            reservations: if self.has_reservation(id) {
                self.reservations.remove(self.reservation_index(id))
            } else {
                self.reservations
            },
            users: self.users,
        }
    }

    /// Stores `u`: it replaces the user with the same email where there is
    /// one, and is appended otherwise.
    pub open spec fn put_user(self, u: UserView) -> DatabaseView {
        DatabaseView {
            reservations: self.reservations,
            users: if self.has_user(u.email) {
                self.users.update(self.user_index(u.email), u)
            } else {
                self.users.push(u)
            },
        }
    }
}

/// A reservation record: built from an id, an email and a room, and read back.
pub trait ReservationService: Sized + View<V = ReservationView> {
    fn new(id: u64, email: String, room: String) -> (r: Self)
        ensures
            r@ == (ReservationView { id, email: email@, room: room@ }),
    ;

    fn id(&self) -> (r: u64)
        ensures
            r == self@.id,
    ;

    fn email(&self) -> (r: String)
        ensures
            r@ == self@.email,
    ;

    fn room(&self) -> (r: String)
        ensures
            r@ == self@.room,
    ;
}

/// A user record: built from a name and an email, and read back.
pub trait UserService: Sized + View<V = UserView> {
    fn new(name: String, email: String) -> (r: Self)
        ensures
            r@ == (UserView { name: name@, email: email@ }),
    ;

    fn name(&self) -> (r: String)
        ensures
            r@ == self@.name,
    ;

    fn email(&self) -> (r: String)
        ensures
            r@ == self@.email,
    ;
}

/// The payload of a request to book a room.
pub trait ReservationRequestService: View<V = RequestView> {
    fn name(&self) -> (r: String)
        ensures
            r@ == self@.name,
    ;

    fn email(&self) -> (r: String)
        ensures
            r@ == self@.email,
    ;

    fn room(&self) -> (r: String)
        ensures
            r@ == self@.room,
    ;
}

/// A notification message of one of two kinds: a reservation was created, or
/// it was cancelled.
pub trait ReservationMessageService: Sized + View<V = EmailView> {
    fn reservation_created_message(to: String, name: String, room: String) -> (r: Self)
        ensures
            r@ == created_message(to@, name@, room@),
    ;

    fn reservation_cancelled_message(to: String, name: String, room: String) -> (r: Self)
        ensures
            r@ == cancelled_message(to@, name@, room@),
    ;
}

/// A store of reservations keyed by id and of users keyed by email.
pub trait ReservationDatabaseService: View<V = DatabaseView> {
    /// All reservations.
    fn get_reservations(&self) -> (r: Vec<Reservation>)
        ensures
            reservation_views(r@) == self@.reservations,
    ;

    fn get_reservation(&self, id: u64) -> (r: Option<&Reservation>)
        requires
            self@.well_formed(),
        ensures
            r.is_some() == self@.has_reservation(id),
            r.is_some() ==> r.unwrap()@ == self@.reservation(id),
    ;

    fn save_reservation(&mut self, reservation: Reservation)
        requires
            old(self)@.well_formed(),
        ensures
            final(self)@ == old(self)@.put_reservation(reservation@),
            final(self)@.well_formed(),
    ;

    /// Removes the reservation with this id; nothing happens where there is none.
    fn delete_reservation(&mut self, id: u64)
        requires
            old(self)@.well_formed(),
        ensures
            final(self)@ == old(self)@.without_reservation(id),
            final(self)@.well_formed(),
    ;

    fn get_user(&self, email: String) -> (r: Option<&User>)
        requires
            self@.well_formed(),
        ensures
            r.is_some() == self@.has_user(email@),
            r.is_some() ==> r.unwrap()@ == self@.user(email@),
    ;

    fn save_user(&mut self, user: User)
        requires
            old(self)@.well_formed(),
        ensures
            final(self)@ == old(self)@.put_user(user@),
            final(self)@.well_formed(),
    ;
}

/// Sends notification messages; the view is the outbox, in send order.
pub trait SendReservationMessageService: View<V = Seq<EmailView>> {
    /// Appends `message` to the outbox.
    fn send_message(&mut self, message: Email)
        ensures
            final(self)@ == old(self)@.push(message@),
    ;

    fn send_reservation_cancelled_message(&mut self, to: String, name: String, room: String)
        ensures
            final(self)@ == old(self)@.push(cancelled_message(to@, name@, room@)),
    {
        self.send_message(Email::reservation_cancelled_message(to, name, room));
    }

    fn send_reservation_created_message(&mut self, to: String, name: String, room: String)
        ensures
            final(self)@ == old(self)@.push(created_message(to@, name@, room@)),
    {
        self.send_message(Email::reservation_created_message(to, name, room));
    }
}

/// The messages sent so far, in send order.
pub trait GetOutboxService: View<V = Seq<EmailView>> {
    fn get_outbox(&self) -> (r: Vec<Email>)
        ensures
            crate::messages::email_views(r@) == self@,
    ;
}

/// Storing a user keeps the store well formed, and the user is then found by
/// its email.
pub proof fn lemma_put_user(db: DatabaseView, u: UserView)
    requires
        db.well_formed(),
    ensures
        db.put_user(u).well_formed(),
        db.put_user(u).has_user(u.email),
        db.put_user(u).user(u.email) == u,
{
    let d = db.put_user(u);
    if db.has_user(u.email) {
        let i = db.user_index(u.email);
        assert(d.users[i].email == u.email);
        lemma_user_found(d, u.email, i);
    } else {
        let i = db.users.len() as int;
        assert(d.users[i].email == u.email);
        lemma_user_found(d, u.email, i);
    }
}

/// In a well-formed store, the user found at an index with that email is the
/// one that `user` names.
pub proof fn lemma_user_found(db: DatabaseView, email: Seq<char>, i: int)
    requires
        db.well_formed(),
        0 <= i < db.users.len(),
        db.users[i].email == email,
    ensures
        db.has_user(email),
        db.user_index(email) == i,
        db.user(email) == db.users[i],
{
    let j = db.user_index(email);
    assert(0 <= j < db.users.len() && db.users[j].email == email);
    if j < i {
        assert(db.users[j].email != db.users[i].email);
    } else if j > i {
        assert(db.users[i].email != db.users[j].email);
    }
}

/// In a well-formed store, the reservation found at an index with that id is
/// the one that `reservation` names.
pub proof fn lemma_reservation_found(db: DatabaseView, id: u64, i: int)
    requires
        db.well_formed(),
        0 <= i < db.reservations.len(),
        db.reservations[i].id == id,
    ensures
        db.has_reservation(id),
        db.reservation_index(id) == i,
        db.reservation(id) == db.reservations[i],
{
    let j = db.reservation_index(id);
    assert(0 <= j < db.reservations.len() && db.reservations[j].id == id);
    if j < i {
        assert(db.reservations[j].id != db.reservations[i].id);
    } else if j > i {
        assert(db.reservations[i].id != db.reservations[j].id);
    }
}

/// Storing a reservation keeps the store well formed and its users, and the
/// reservation is then found by its id.
pub proof fn lemma_put_reservation(db: DatabaseView, r: ReservationView)
    requires
        db.well_formed(),
    ensures
        db.put_reservation(r).well_formed(),
        db.put_reservation(r).users == db.users,
        db.put_reservation(r).has_reservation(r.id),
        db.put_reservation(r).reservation(r.id) == r,
{
    let d = db.put_reservation(r);
    if db.has_reservation(r.id) {
        let i = db.reservation_index(r.id);
        assert(d.reservations[i].id == r.id);
        lemma_reservation_found(d, r.id, i);
    } else {
        let i = db.reservations.len() as int;
        assert(d.reservations[i].id == r.id);
        lemma_reservation_found(d, r.id, i);
    }
}

/// Removing a reservation from a well-formed store keeps it well formed and
/// its users, and leaves no reservation with that id.
pub proof fn lemma_without_reservation(db: DatabaseView, id: u64)
    requires
        db.well_formed(),
    ensures
        db.without_reservation(id).well_formed(),
        db.without_reservation(id).users == db.users,
        !db.without_reservation(id).has_reservation(id),
{
    let d = db.without_reservation(id);
    if db.has_reservation(id) {
        let i = db.reservation_index(id);
        assert forall|a: int, b: int| 0 <= a < b < d.reservations.len() implies d.reservations[a].id
            != d.reservations[b].id by {
            let a0 = if a < i { a } else { a + 1 };
            let b0 = if b < i { b } else { b + 1 };
            assert(d.reservations[a] == db.reservations[a0]);
            assert(d.reservations[b] == db.reservations[b0]);
        }
        if d.has_reservation(id) {
            let k = choose|k: int| 0 <= k < d.reservations.len() && d.reservations[k].id == id;
            let k0 = if k < i { k } else { k + 1 };
            assert(d.reservations[k] == db.reservations[k0]);
            lemma_reservation_found(db, id, k0);
        }
    }
}

} // verus!
