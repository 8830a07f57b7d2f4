//! An in-memory store that keeps reservations and users in insertion order.
use vstd::prelude::*;

use crate::entities::{Reservation, User};
use crate::services::{DatabaseView, ReservationDatabaseService, reservation_views, user_views};

verus! {

/// A store held in memory: reservations keyed by id and users keyed by email,
/// each kept in the order in which it was first stored.
pub struct MockDatabase {
    reservations: Vec<Reservation>,
    users: Vec<User>,
}

impl View for MockDatabase {
    type V = DatabaseView;

    closed spec fn view(&self) -> DatabaseView {
        DatabaseView {
            reservations: reservation_views(self.reservations@),
            users: user_views(self.users@),
        }
    }
}

impl MockDatabase {
    /// An empty store.
    pub fn new() -> (r: Self)
        ensures
            r@ == DatabaseView::empty(),
            r@.well_formed(),
    {
        let r = MockDatabase { reservations: Vec::new(), users: Vec::new() };
        assert(r@.reservations =~= Seq::empty());
        assert(r@.users =~= Seq::empty());
        r
    }

    /// Where the reservation with this id stands, if there is one.
    fn reservation_position(&self, id: u64) -> (r: Option<usize>)
        requires
            self@.well_formed(),
        ensures
            r.is_some() == self@.has_reservation(id),
            r.is_some() ==> r.unwrap() == self@.reservation_index(id),
            r.is_some() ==> r.unwrap() < self.reservations@.len(),
    {
        let mut i: usize = 0;
        while i < self.reservations.len()
            invariant
                self@.well_formed(),
                i <= self.reservations@.len(),
                forall|k: int| 0 <= k < i ==> self@.reservations[k].id != id,
            decreases self.reservations@.len() - i,
        {
            if self.reservations[i].id == id {
                proof {
                    let j = self@.reservation_index(id);
                    assert(self@.reservations[i as int].id == id);
                    assert(0 <= j < self@.reservations.len() && self@.reservations[j].id == id);
                    if j < i as int {
                        assert(self@.reservations[j].id != self@.reservations[i as int].id);
                    } else if j > i as int {
                        assert(self@.reservations[i as int].id != self@.reservations[j].id);
                    }
                }
                return Some(i);
            }
            i = i + 1;
        }
        None
    }

    /// Where the user with this email stands, if there is one.
    fn user_position(&self, email: &String) -> (r: Option<usize>)
        requires
            self@.well_formed(),
        ensures
            r.is_some() == self@.has_user(email@),
            r.is_some() ==> r.unwrap() == self@.user_index(email@),
            r.is_some() ==> r.unwrap() < self.users@.len(),
    {
        let mut i: usize = 0;
        while i < self.users.len()
            invariant
                self@.well_formed(),
                i <= self.users@.len(),
                forall|k: int| 0 <= k < i ==> self@.users[k].email != email@,
            decreases self.users@.len() - i,
        {
            if self.users[i].email == *email {
                proof {
                    let j = self@.user_index(email@);
                    assert(self@.users[i as int].email == email@);
                    assert(0 <= j < self@.users.len() && self@.users[j].email == email@);
                    if j < i as int {
                        assert(self@.users[j].email != self@.users[i as int].email);
                    } else if j > i as int {
                        assert(self@.users[i as int].email != self@.users[j].email);
                    }
                }
                return Some(i);
            }
            i = i + 1;
        }
        None
    }
}

impl ReservationDatabaseService for MockDatabase {
    fn get_reservations(&self) -> (r: Vec<Reservation>) {
        let r = self.reservations.clone();
        assert(r@ =~= self.reservations@);
        r
    }

    fn get_reservation(&self, id: u64) -> (r: Option<&Reservation>) {
        match self.reservation_position(id) {
            Some(i) => Some(&self.reservations[i]),
            None => None,
        }
    }

    fn save_reservation(&mut self, reservation: Reservation) {
        let ghost before = self@;
        match self.reservation_position(reservation.id) {
            Some(i) => {
                self.reservations.set(i, reservation);
                assert(self@.reservations =~= before.reservations.update(i as int, reservation@));
            },
            None => {
                self.reservations.push(reservation);
                assert(self@.reservations =~= before.reservations.push(reservation@));
            },
        }
        assert(self@.users =~= before.users);
    }

    fn delete_reservation(&mut self, id: u64) {
        let ghost before = self@;
        match self.reservation_position(id) {
            Some(i) => {
                self.reservations.remove(i);
                assert(self@.reservations =~= before.reservations.remove(i as int));
                assert forall|a: int, b: int|
                    0 <= a < b < self@.reservations.len() implies self@.reservations[a].id
                    != self@.reservations[b].id by {
                    let a0 = if a < i { a } else { a + 1 };
                    let b0 = if b < i { b } else { b + 1 };
                    assert(self@.reservations[a] == before.reservations[a0]);
                    assert(self@.reservations[b] == before.reservations[b0]);
                }
            },
            None => {},
        }
        assert(self@.users =~= before.users);
    }

    fn get_user(&self, email: String) -> (r: Option<&User>) {
        match self.user_position(&email) {
            Some(i) => Some(&self.users[i]),
            None => None,
        }
    }

    fn save_user(&mut self, user: User) {
        let ghost before = self@;
        let ghost u = user@;
        match self.user_position(&user.email) {
            Some(i) => {
                self.users.set(i, user);
                assert(self@.users =~= before.users.update(i as int, u));
            },
            None => {
                self.users.push(user);
                assert(self@.users =~= before.users.push(u));
            },
        }
        assert(self@.reservations =~= before.reservations);
    }
}

} // verus!
