use reservations::database::MockDatabase;
use reservations::entities::{CreateReservation, Reservation, ReservationRequest, User};
use reservations::handlers::{
    create_reservation, delete_reservation, get_outbox, get_reservations, Status,
};
use reservations::mailer::MockMailer;
use reservations::messages::Email;
use reservations::services::{
    GetOutboxService, ReservationDatabaseService, ReservationMessageService,
    ReservationRequestService, ReservationService, SendReservationMessageService, UserService,
};

fn john() -> CreateReservation {
    CreateReservation::new(
        "John Doe".to_string(),
        "john@example.com".to_string(),
        "101".to_string(),
    )
}

fn setup() -> (MockDatabase, MockMailer) {
    (MockDatabase::new(), MockMailer::new())
}

fn reservations_round(db: &mut MockDatabase, mailer: &mut MockMailer) {
    let status = create_reservation(db, mailer, &john());
    assert_eq!(status, Status::Created);

    let reservations: Vec<Reservation> = get_reservations(db);
    assert_eq!(reservations.len(), 1);
    assert_eq!(reservations[0].email, "john@example.com");
    assert_eq!(reservations[0].room, "101");

    let status = delete_reservation(1, db, mailer);
    assert_eq!(status, Status::NoContent);
}

fn outbox_round(db: &mut MockDatabase, mailer: &mut MockMailer) {
    let status = create_reservation(db, mailer, &john());
    assert_eq!(status, Status::Created);

    let status = delete_reservation(1, db, mailer);
    assert_eq!(status, Status::NoContent);

    let emails: Vec<Email> = get_outbox(mailer);
    assert_eq!(emails.len(), 2);
    assert_eq!(emails[0].subject, "Reservation created");
    assert_eq!(emails[1].subject, "Reservation cancelled");
}

#[test]
fn app_handlers_test_reservations() {
    let (mut db, mut mailer) = setup();
    reservations_round(&mut db, &mut mailer);
}

#[test]
fn app_handlers_test_delete_reservation_not_found() {
    let (mut db, mut mailer) = setup();
    assert_eq!(delete_reservation(999, &mut db, &mut mailer), Status::NotFound);
}

#[test]
fn app_handlers_test_outbox() {
    let (mut db, mut mailer) = setup();
    outbox_round(&mut db, &mut mailer);
}

#[test]
fn main_test_reservations() {
    let (mut db, mut mailer) = setup();
    reservations_round(&mut db, &mut mailer);
}

#[test]
fn main_test_delete_reservation_not_found() {
    let (mut db, mut mailer) = setup();
    assert_eq!(delete_reservation(999, &mut db, &mut mailer), Status::NotFound);
}

#[test]
fn main_test_outbox() {
    let (mut db, mut mailer) = setup();
    outbox_round(&mut db, &mut mailer);
}

#[test]
fn fresh_store_lists_nothing() {
    let db = MockDatabase::new();
    assert!(get_reservations(&db).is_empty());
    assert!(db.get_reservations().is_empty());
}

#[test]
fn first_booking_gets_id_one() {
    let (mut db, mut mailer) = setup();
    create_reservation(&mut db, &mut mailer, &john());
    let list = get_reservations(&db);
    assert_eq!(list.len(), 1);
    assert_eq!(list[0].id, 1);
    assert_eq!(list[0].email, "john@example.com");
    assert_eq!(list[0].room, "101");
    let user = db.get_user("john@example.com".to_string()).unwrap();
    assert_eq!(user.name, "John Doe");
}

#[test]
fn same_email_records_first_name_once() {
    let (mut db, mut mailer) = setup();
    create_reservation(&mut db, &mut mailer, &john());
    let other = CreateReservation::new(
        "Johnny".to_string(),
        "john@example.com".to_string(),
        "202".to_string(),
    );
    create_reservation(&mut db, &mut mailer, &other);
    let user = db.get_user("john@example.com".to_string()).unwrap();
    assert_eq!(user.name, "John Doe");
    let list = get_reservations(&db);
    assert_eq!(list.len(), 2);
    assert_eq!(list[1].id, 2);
    assert_eq!(list[1].room, "202");
    // the cancellation notice uses the recorded name
    assert_eq!(delete_reservation(2, &mut db, &mut mailer), Status::NoContent);
    let outbox = get_outbox(&mailer);
    assert_eq!(outbox[1].body, "Hello, Johnny. Your reservation for room 202 has been created");
    assert_eq!(outbox[2].body, "Hello, John Doe. Your reservation for room 202 has been cancelled");
}

#[test]
fn cancel_removes_the_id() {
    let (mut db, mut mailer) = setup();
    create_reservation(&mut db, &mut mailer, &john());
    assert_eq!(delete_reservation(1, &mut db, &mut mailer), Status::NoContent);
    assert!(get_reservations(&db).iter().all(|r| r.id != 1));
    assert!(db.get_reservation(1).is_none());
}

#[test]
fn cancel_missing_keeps_outbox() {
    let (mut db, mut mailer) = setup();
    create_reservation(&mut db, &mut mailer, &john());
    assert_eq!(delete_reservation(7, &mut db, &mut mailer), Status::NotFound);
    assert_eq!(get_outbox(&mailer).len(), 1);
    assert_eq!(get_reservations(&db).len(), 1);
}

#[test]
fn booking_then_cancel_messages_in_order() {
    let (mut db, mut mailer) = setup();
    create_reservation(&mut db, &mut mailer, &john());
    delete_reservation(1, &mut db, &mut mailer);
    let outbox = get_outbox(&mailer);
    assert_eq!(outbox.len(), 2);
    assert_eq!(outbox[0].to, "john@example.com");
    assert_eq!(outbox[0].subject, "Reservation created");
    assert_eq!(outbox[0].body, "Hello, John Doe. Your reservation for room 101 has been created");
    assert_eq!(outbox[1].to, "john@example.com");
    assert_eq!(outbox[1].subject, "Reservation cancelled");
    assert_eq!(outbox[1].body, "Hello, John Doe. Your reservation for room 101 has been cancelled");
}

#[test]
fn cancel_twice_then_not_found() {
    let (mut db, mut mailer) = setup();
    create_reservation(&mut db, &mut mailer, &john());
    assert_eq!(delete_reservation(1, &mut db, &mut mailer), Status::NoContent);
    assert_eq!(delete_reservation(1, &mut db, &mut mailer), Status::NotFound);
    assert_eq!(get_outbox(&mailer).len(), 2);
}

#[test]
fn orphaned_reservation_cancels_silently() {
    let (mut db, mut mailer) = setup();
    db.save_reservation(Reservation::new(5, "ghost@example.com".to_string(), "9".to_string()));
    assert_eq!(delete_reservation(5, &mut db, &mut mailer), Status::NoContent);
    assert!(get_outbox(&mailer).is_empty());
    assert!(get_reservations(&db).is_empty());
}

#[test]
fn id_follows_reservation_count() {
    let (mut db, mut mailer) = setup();
    create_reservation(&mut db, &mut mailer, &john());
    create_reservation(&mut db, &mut mailer, &john());
    assert_eq!(delete_reservation(1, &mut db, &mut mailer), Status::NoContent);
    // one reservation (id 2) is left, so the next booking takes id 2 again
    create_reservation(&mut db, &mut mailer, &john());
    let list = get_reservations(&db);
    assert_eq!(list.len(), 1);
    assert_eq!(list[0].id, 2);
}

#[test]
fn save_reservation_overwrites_by_id() {
    let mut db = MockDatabase::new();
    db.save_reservation(Reservation::new(3, "a@x".to_string(), "1".to_string()));
    db.save_reservation(Reservation::new(4, "b@x".to_string(), "2".to_string()));
    db.save_reservation(Reservation::new(3, "c@x".to_string(), "5".to_string()));
    let list = db.get_reservations();
    assert_eq!(list.len(), 2);
    let r = db.get_reservation(3).unwrap();
    assert_eq!(r.email(), "c@x");
    assert_eq!(r.room(), "5");
    assert_eq!(r.id(), 3);
    db.delete_reservation(9);
    assert_eq!(db.get_reservations().len(), 2);
    db.delete_reservation(3);
    assert_eq!(db.get_reservations().len(), 1);
    assert_eq!(db.get_reservations()[0].id, 4);
}

#[test]
fn save_user_overwrites_by_email() {
    let mut db = MockDatabase::new();
    assert!(db.get_user("a@x".to_string()).is_none());
    db.save_user(User::new("Ann".to_string(), "a@x".to_string()));
    db.save_user(User::new("Anna".to_string(), "a@x".to_string()));
    let u = db.get_user("a@x".to_string()).unwrap();
    assert_eq!(u.name(), "Anna");
    assert_eq!(u.email(), "a@x");
}

#[test]
fn mailer_keeps_send_order() {
    let mut mailer = MockMailer::new();
    mailer.send_reservation_created_message("a@x".to_string(), "Ann".to_string(), "1".to_string());
    mailer.send_message(Email::reservation_cancelled_message(
        "b@x".to_string(),
        "Bob".to_string(),
        "2".to_string(),
    ));
    mailer.send_reservation_cancelled_message("a@x".to_string(), "Ann".to_string(), "1".to_string());
    let out = mailer.get_outbox();
    assert_eq!(out.len(), 3);
    assert_eq!(out[0].subject, "Reservation created");
    assert_eq!(out[1].to, "b@x");
    assert_eq!(out[1].body, "Hello, Bob. Your reservation for room 2 has been cancelled");
    assert_eq!(out[2].subject, "Reservation cancelled");
}

#[test]
fn request_payloads_read_back() {
    let a = john();
    assert_eq!(a.name(), "John Doe");
    assert_eq!(a.email(), "john@example.com");
    assert_eq!(a.room(), "101");
    let b = ReservationRequest::new("Ann".to_string(), "a@x".to_string(), "7".to_string());
    assert_eq!(b.name(), "Ann");
    assert_eq!(b.email(), "a@x");
    assert_eq!(b.room(), "7");
    let (mut db, mut mailer) = setup();
    assert_eq!(create_reservation(&mut db, &mut mailer, &b), Status::Created);
    assert_eq!(get_reservations(&db)[0].room, "7");
}

#[test]
fn clones_keep_fields() {
    let r = Reservation::new(8, "e".to_string(), "r".to_string()).clone();
    assert_eq!((r.id, r.email.as_str(), r.room.as_str()), (8, "e", "r"));
    let u = User::new("n".to_string(), "e".to_string()).clone();
    assert_eq!((u.name.as_str(), u.email.as_str()), ("n", "e"));
    let m = Email::reservation_created_message("t".to_string(), "n".to_string(), "r".to_string())
        .clone();
    assert_eq!(m.body, "Hello, n. Your reservation for room r has been created");
}
