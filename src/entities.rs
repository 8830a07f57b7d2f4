//! The records that the store keeps and the payload of a booking request.
use vstd::prelude::*;

use crate::services::{ReservationService, UserService, ReservationRequestService};

verus! {

/// A booked room, identified by `id`.
pub struct Reservation {
    pub id: u64,
    pub email: String,
    pub room: String,
}

/// What a reservation is, as plain values.
pub struct ReservationView {
    pub id: u64,
    pub email: Seq<char>,
    pub room: Seq<char>,
}

impl View for Reservation {
    type V = ReservationView;

    open spec fn view(&self) -> ReservationView {
        ReservationView { id: self.id, email: self.email@, room: self.room@ }
    }
}

impl Clone for Reservation {
    fn clone(&self) -> (r: Self)
        ensures
            r == *self,
    {
        Reservation { id: self.id, email: self.email.clone(), room: self.room.clone() }
    }
}

impl ReservationService for Reservation {
    fn new(id: u64, email: String, room: String) -> (r: Self) {
        Reservation { id, email, room }
    }

    fn id(&self) -> (r: u64) {
        self.id
    }

    fn email(&self) -> (r: String) {
        self.email.clone()
    }

    fn room(&self) -> (r: String) {
        self.room.clone()
    }
}

/// A person who has booked, identified by `email`.
pub struct User {
    pub name: String,
    pub email: String,
}

/// What a user is, as plain values.
pub struct UserView {
    pub name: Seq<char>,
    pub email: Seq<char>,
}

impl View for User {
    type V = UserView;

    open spec fn view(&self) -> UserView {
        UserView { name: self.name@, email: self.email@ }
    }
}

impl Clone for User {
    fn clone(&self) -> (r: Self)
        ensures
            r == *self,
    {
        User { name: self.name.clone(), email: self.email.clone() }
    }
}

impl UserService for User {
    fn new(name: String, email: String) -> (r: Self) {
        User { name, email }
    }

    fn name(&self) -> (r: String) {
        self.name.clone()
    }

    fn email(&self) -> (r: String) {
        self.email.clone()
    }
}

/// What a booking request carries, as plain values.
pub struct RequestView {
    pub name: Seq<char>,
    pub email: Seq<char>,
    pub room: Seq<char>,
}

/// The body of a request to book `room` for the person `name` at `email`.
pub struct CreateReservation {
    name: String,
    email: String,
    room: String,
}

impl View for CreateReservation {
    type V = RequestView;

    closed spec fn view(&self) -> RequestView {
        RequestView { name: self.name@, email: self.email@, room: self.room@ }
    }
}

impl CreateReservation {
    pub fn new(name: String, email: String, room: String) -> (r: Self)
        ensures
            r@ == (RequestView { name: name@, email: email@, room: room@ }),
    {
        CreateReservation { name, email, room }
    }
}

impl ReservationRequestService for CreateReservation {
    fn name(&self) -> (r: String) {
        self.name.clone()
    }

    fn email(&self) -> (r: String) {
        self.email.clone()
    }

    fn room(&self) -> (r: String) {
        self.room.clone()
    }
}

/// Another form of the body of a booking request, with the same fields.
pub struct ReservationRequest {
    name: String,
    email: String,
    room: String,
}

impl View for ReservationRequest {
    type V = RequestView;

    closed spec fn view(&self) -> RequestView {
        RequestView { name: self.name@, email: self.email@, room: self.room@ }
    }
}

impl ReservationRequest {
    pub fn new(name: String, email: String, room: String) -> (r: Self)
        ensures
            r@ == (RequestView { name: name@, email: email@, room: room@ }),
    {
        ReservationRequest { name, email, room }
    }
}

impl ReservationRequestService for ReservationRequest {
    fn name(&self) -> (r: String) {
        self.name.clone()
    }

    fn email(&self) -> (r: String) {
        self.email.clone()
    }

    fn room(&self) -> (r: String) {
        self.room.clone()
    }
}

} // verus!
