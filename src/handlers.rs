//! The request handlers: each performs one logical operation on a store and,
//! for a booking or a cancellation, records the matching notification.
//!
//! The caller holds exclusive access to the store for the whole call; every
//! store change is made before the notification is sent.
use vstd::prelude::*;

use crate::entities::{Reservation, RequestView, ReservationView, User, UserView};
use crate::messages::{Email, EmailView, created_message, cancelled_message, email_views};
use crate::services::{
    DatabaseView, GetOutboxService, lemma_put_reservation, lemma_put_user, lemma_without_reservation, ReservationDatabaseService, ReservationRequestService,
    ReservationService, SendReservationMessageService, UserService, reservation_views,
};

verus! {

/// The outcome of a request.
#[derive(PartialEq, Eq, Structural, Clone, Copy, Debug)]
pub enum Status {
    Created,
    NoContent,
    NotFound,
}

/// The store after booking `req`: its user is recorded unless one with that
/// email exists already (whose name is then kept), and a reservation whose
/// id is one more than the number of reservations is stored.
pub open spec fn created_store(db: DatabaseView, req: RequestView) -> DatabaseView {
    let with_user = if db.has_user(req.email) {
        db
    } else {
        db.put_user(UserView { name: req.name, email: req.email })
    };
    with_user.put_reservation(
        ReservationView { id: (db.reservations.len() + 1) as u64, email: req.email, room: req.room },
    )
}

/// The outbox after booking `req`.
pub open spec fn created_outbox(outbox: Seq<EmailView>, req: RequestView) -> Seq<EmailView> {
    outbox.push(created_message(req.email, req.name, req.room))
}

/// The outcome of cancelling the reservation with this id.
pub open spec fn cancel_status(db: DatabaseView, id: u64) -> Status {
    if db.has_reservation(id) {
        Status::NoContent
    } else {
        Status::NotFound
    }
}

/// The outbox after cancelling the reservation with this id: the user who
/// booked it is told, where the store knows that user.
pub open spec fn cancelled_outbox(db: DatabaseView, outbox: Seq<EmailView>, id: u64) -> Seq<
    EmailView,
> {
    if db.has_reservation(id) && db.has_user(db.reservation(id).email) {
        let u = db.user(db.reservation(id).email);
        outbox.push(cancelled_message(u.email, u.name, db.reservation(id).room))
    } else {
        outbox
    }
}

/// All reservations of the store.
pub fn get_reservations<DB: ReservationDatabaseService>(db: &DB) -> (r: Vec<Reservation>)
    ensures
        reservation_views(r@) == db@.reservations,
{
    db.get_reservations()
}

/// Books a room: records the user if the email is new, stores a reservation
/// numbered one more than the reservations held, then sends the notice.
pub fn create_reservation<
    DB: ReservationDatabaseService,
    M: SendReservationMessageService,
    R: ReservationRequestService,
>(db: &mut DB, mailer: &mut M, payload: &R) -> (r: Status)
    requires
        old(db)@.well_formed(),
        old(db)@.reservations.len() < u64::MAX,
    ensures
        r == Status::Created,
        final(db)@ == created_store(old(db)@, payload@),
        final(db)@.well_formed(),
        final(mailer)@ == created_outbox(old(mailer)@, payload@),
{
    let id = db.get_reservations().len() as u64 + 1;
    if db.get_user(payload.email()).is_none() {
        let user = User::new(payload.name(), payload.email());
        db.save_user(user);
    }
    let reservation = Reservation::new(id, payload.email(), payload.room());
    db.save_reservation(reservation);
    mailer.send_reservation_created_message(payload.email(), payload.name(), payload.room());
    Status::Created
}

/// Cancels the reservation with this id: `NotFound`, with nothing changed,
/// where there is none; otherwise it is removed, its user (if known) is
/// told, and the outcome is `NoContent`.
pub fn delete_reservation<DB: ReservationDatabaseService, M: SendReservationMessageService>(
    id: u64,
    db: &mut DB,
    mailer: &mut M,
) -> (r: Status)
    requires
        old(db)@.well_formed(),
    ensures
        r == cancel_status(old(db)@, id),
        final(db)@ == old(db)@.without_reservation(id),
        final(db)@.well_formed(),
        final(mailer)@ == cancelled_outbox(old(db)@, old(mailer)@, id),
        r == Status::NotFound ==> final(db)@ == old(db)@ && final(mailer)@ == old(mailer)@,
{
    let (email, room) = match db.get_reservation(id) {
        Some(reservation) => (reservation.email(), reservation.room()),
        None => {
            return Status::NotFound;
        },
    };
    let recipient = match db.get_user(email) {
        Some(user) => Some((user.email(), user.name())),
        None => None,
    };
    db.delete_reservation(id);
    match recipient {
        Some((to, name)) => mailer.send_reservation_cancelled_message(to, name, room),
        None => {},
    }
    Status::NoContent
}

/// Every message sent so far, in send order.
pub fn get_outbox<M: GetOutboxService>(mailer: &M) -> (r: Vec<Email>)
    ensures
        email_views(r@) == mailer@,
{
    mailer.get_outbox()
}

/// A fresh store holds no reservation, so listing it gives nothing.
pub proof fn lemma_fresh_store_lists_nothing()
    ensures
        DatabaseView::empty().reservations.len() == 0,
        DatabaseView::empty().well_formed(),
{
}

/// The first booking in a fresh store leaves exactly one reservation, with
/// id 1 and the requested email and room.
pub proof fn lemma_first_booking(req: RequestView)
    ensures
        created_store(DatabaseView::empty(), req).reservations == seq![
            ReservationView { id: 1, email: req.email, room: req.room },
        ],
{
    let d = created_store(DatabaseView::empty(), req);
    assert(!DatabaseView::empty().has_reservation(1));
    let u = UserView { name: req.name, email: req.email };
    let with_user = DatabaseView::empty().put_user(u);
    assert(with_user.reservations.len() == 0);
    assert(!with_user.has_reservation(1));
    assert(d.reservations =~= seq![ReservationView { id: 1, email: req.email, room: req.room }]);
}

/// Two bookings with the same email record one user for it: the user known
/// before, or else one named as in the first booking.
pub proof fn lemma_one_user_per_email(db: DatabaseView, first: RequestView, second: RequestView)
    requires
        db.well_formed(),
        first.email == second.email,
    ensures
        created_store(created_store(db, first), second).users == if db.has_user(first.email) {
            db.users
        } else {
            db.users.push(UserView { name: first.name, email: first.email })
        },
        created_store(created_store(db, first), second).well_formed(),
{
    lemma_created_store(db, first);
    let d1 = created_store(db, first);
    lemma_created_store(d1, second);
    if !db.has_user(first.email) {
        let u = UserView { name: first.name, email: first.email };
        assert(!db.has_user(u.email));
        assert(db.put_user(u).users == db.users.push(u));
    }
}

/// A booking keeps the store well formed; the new reservation is then found
/// by its id, as is a user for its email (named as in the booking where the
/// email was new), and the users are otherwise those known before.
pub proof fn lemma_created_store(db: DatabaseView, req: RequestView)
    requires
        db.well_formed(),
    ensures
        ({
            let d = created_store(db, req);
            let id = (db.reservations.len() + 1) as u64;
            &&& d.well_formed()
            &&& d.has_reservation(id)
            &&& d.reservation(id) == (ReservationView { id, email: req.email, room: req.room })
            &&& d.has_user(req.email)
            &&& !db.has_user(req.email) ==> d.user(req.email) == (UserView {
                name: req.name,
                email: req.email,
            })
            &&& db.has_user(req.email) ==> d.users == db.users
        }),
{
    let u = UserView { name: req.name, email: req.email };
    let with_user = if db.has_user(req.email) {
        db
    } else {
        db.put_user(u)
    };
    if !db.has_user(req.email) {
        lemma_put_user(db, u);
    }
    let r = ReservationView { id: (db.reservations.len() + 1) as u64, email: req.email, room: req.room };
    lemma_put_reservation(with_user, r);
}

/// After a booking, cancelling its id succeeds and leaves no reservation with
/// that id.
pub proof fn lemma_cancel_after_booking(db: DatabaseView, req: RequestView)
    requires
        db.well_formed(),
    ensures
        ({
            let d = created_store(db, req);
            let id = (db.reservations.len() + 1) as u64;
            &&& cancel_status(d, id) == Status::NoContent
            &&& !d.without_reservation(id).has_reservation(id)
        }),
{
    lemma_created_store(db, req);
    lemma_without_reservation(created_store(db, req), (db.reservations.len() + 1) as u64);
}

/// A booking followed by the cancellation of its id adds exactly two
/// messages to the outbox: first the notice of creation, then the notice of
/// cancellation, both to the booking's email and about its room.
pub proof fn lemma_booking_then_cancel_outbox(
    db: DatabaseView,
    outbox: Seq<EmailView>,
    req: RequestView,
)
    requires
        db.well_formed(),
    ensures
        ({
            let d = created_store(db, req);
            let id = (db.reservations.len() + 1) as u64;
            let name = d.user(req.email).name;
            let out = cancelled_outbox(d, created_outbox(outbox, req), id);
            &&& out == outbox.push(created_message(req.email, req.name, req.room)).push(
                cancelled_message(req.email, name, req.room),
            )
            &&& !db.has_user(req.email) ==> name == req.name
            &&& out.len() == outbox.len() + 2
            &&& out[outbox.len() as int].subject == "Reservation created"@
            &&& out[outbox.len() + 1int].subject == "Reservation cancelled"@
        }),
{
    lemma_created_store(db, req);
}

/// Cancelling the same id twice: the first succeeds, the second finds
/// nothing.
pub proof fn lemma_cancel_twice(db: DatabaseView, id: u64)
    requires
        db.well_formed(),
        db.has_reservation(id),
    ensures
        cancel_status(db, id) == Status::NoContent,
        cancel_status(db.without_reservation(id), id) == Status::NotFound,
{
    lemma_without_reservation(db, id);
}

} // verus!
