//! A single parking spot and what it records while it is held.

use crate::clock::current_timestamp;
use vstd::prelude::*;

verus! {

/// What a spot is, seen from outside: free, or held for a customer's vehicle
/// since a moment given in seconds since the epoch.
pub enum SpotState {
    Empty,
    Occupied { customer_name: Seq<char>, vehicle_number: Seq<char>, reserved_at: u64 },
}

/// The seconds from `since` to `now`. A clock that has stepped back behind
/// `since` counts as no time at all.
pub open spec fn elapsed(since: u64, now: u64) -> u64 {
    if now >= since {
        (now - since) as u64
    } else {
        0
    }
}

/// One spot of the registry. Its three details are recorded together while the
/// spot is occupied, and none of them is while it is empty.
pub struct ParkingSpot {
    occupied: bool,
    customer_name: Option<String>,
    vehicle_number: Option<String>,
    reserved_at: Option<u64>,
}

impl View for ParkingSpot {
    type V = SpotState;

    closed spec fn view(&self) -> SpotState {
        if self.occupied {
            SpotState::Occupied {
                customer_name: self.customer_name->0@,
                vehicle_number: self.vehicle_number->0@,
                reserved_at: self.reserved_at->0,
            }
        } else {
            SpotState::Empty
        }
    }
}

impl DeepView for ParkingSpot {
    type V = SpotState;

    open spec fn deep_view(&self) -> SpotState {
        self@
    }
}

impl ParkingSpot {
    /// No partial states: the three details are present exactly when the spot
    /// is occupied.
    #[verifier::type_invariant]
    spec fn all_or_nothing(self) -> bool {
        &&& self.occupied == self.customer_name.is_some()
        &&& self.occupied == self.vehicle_number.is_some()
        &&& self.occupied == self.reserved_at.is_some()
    }

    /// An empty spot.
    pub fn new() -> (spot: Self)
        ensures
            spot@ == SpotState::Empty,
    {
        ParkingSpot { occupied: false, customer_name: None, vehicle_number: None, reserved_at: None }
    }

    /// Occupies the spot for `customer_name` and `vehicle_number`, stamped with
    /// the current time. Whatever the spot held before is replaced.
    pub fn reserve(&mut self, customer_name: String, vehicle_number: String)
        ensures
            final(self)@ matches SpotState::Occupied { customer_name: name, vehicle_number: number, .. }
                && name == customer_name@ && number == vehicle_number@,
    {
        let now: u64 = current_timestamp();
        self.reserve_at(customer_name, vehicle_number, now);
    }

    /// Occupies the spot for `customer_name` and `vehicle_number`, stamped with
    /// the time `now`. Whatever the spot held before is replaced.
    pub fn reserve_at(&mut self, customer_name: String, vehicle_number: String, now: u64)
        ensures
            final(self)@ == (SpotState::Occupied {
                customer_name: customer_name@,
                vehicle_number: vehicle_number@,
                reserved_at: now,
            }),
    {
        *self = ParkingSpot {
            occupied: true,
            customer_name: Some(customer_name),
            vehicle_number: Some(vehicle_number),
            reserved_at: Some(now),
        };
    }

    /// Empties the spot. Returns the seconds it was held up to the current
    /// time, or `None` if it was empty already.
    pub fn release(&mut self) -> (duration: Option<u64>)
        ensures
            final(self)@ == SpotState::Empty,
            duration is Some <==> old(self)@ is Occupied,
    {
        let now: u64 = current_timestamp();
        self.release_at(now)
    }

    /// Empties the spot. Returns the seconds it was held up to the time `now`,
    /// or `None` if it was empty already.
    pub fn release_at(&mut self, now: u64) -> (duration: Option<u64>)
        ensures
            final(self)@ == SpotState::Empty,
            duration == match old(self)@ {
                SpotState::Empty => None,
                SpotState::Occupied { reserved_at, .. } => Some(elapsed(reserved_at, now)),
            },
    {
        proof {
            use_type_invariant(&*self);
        }
        if let Some(start_time) = self.reserved_at {
            *self = ParkingSpot::new();
            if now >= start_time {
                Some(now - start_time)
            } else {
                Some(0)
            }
        } else {
            None
        }
    }

    /// Whether the spot is occupied.
    pub fn is_occupied(&self) -> (occupied: bool)
        ensures
            occupied == (self@ is Occupied),
    {
        self.occupied
    }

    /// The customer that holds the spot, if it is occupied.
    pub fn customer_name(&self) -> (name: Option<&str>)
        ensures
            name is Some <==> self@ is Occupied,
            name matches Some(text) ==> text@ == self@->customer_name,
    {
        proof {
            use_type_invariant(self);
        }
        match &self.customer_name {
            Some(name) => Some(name.as_str()),
            None => None,
        }
    }

    /// The vehicle that stands on the spot, if it is occupied.
    pub fn vehicle_number(&self) -> (number: Option<&str>)
        ensures
            number is Some <==> self@ is Occupied,
            number matches Some(text) ==> text@ == self@->vehicle_number,
    {
        proof {
            use_type_invariant(self);
        }
        match &self.vehicle_number {
            Some(number) => Some(number.as_str()),
            None => None,
        }
    }

    /// The time since which the spot is held, if it is occupied.
    pub fn reserved_at(&self) -> (since: Option<u64>)
        ensures
            since == match self@ {
                SpotState::Empty => None,
                SpotState::Occupied { reserved_at, .. } => Some(reserved_at),
            },
    {
        proof {
            use_type_invariant(self);
        }
        self.reserved_at
    }
}

} // verus!
