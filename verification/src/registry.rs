//! The spot registry: a fixed row of parking spots, numbered from 1, that can
//! be listed, booked and released.
//!
//! A registry is a slice of [`ParkingSpot`]; the contracts speak of it as the
//! sequence of its spots' states. Every operation either takes effect in full
//! or changes nothing, and says which in its outcome.

use crate::clock::current_timestamp;
use crate::fee::{calculate_fee, fee_for};
use crate::spot::{elapsed, ParkingSpot, SpotState};
use crate::text::{
    decimal, is_whitespace, lemma_decimal_is_numeral, lemma_trimmed_of_trimmed, numeral_value,
    parse_number, push_decimal, trim, trimmed,
};
use vstd::prelude::*;

verus! {

/// The number of spots of a registry.
pub const NUM_SPOTS: usize = 30;

/// How an attempt to book a spot ended.
#[derive(Clone, Copy, Debug, PartialEq, Eq, Structural)]
pub enum BookOutcome {
    /// The spot was empty and is now occupied.
    Booked { spot_number: usize },
    /// The spot was occupied already; nothing changed.
    AlreadyOccupied { spot_number: usize },
    /// The registry has no spot of that number; nothing changed.
    InvalidSpot,
}

/// How an attempt to release a spot ended.
#[derive(Clone, Copy, Debug, PartialEq, Eq, Structural)]
pub enum ReleaseOutcome {
    /// The spot was occupied for `duration` seconds, which cost `fee`, and is
    /// now empty.
    Released { spot_number: usize, duration: u64, fee: u64 },
    /// The spot was empty already; nothing changed.
    AlreadyEmpty { spot_number: usize },
    /// The registry has no spot of that number; nothing changed.
    InvalidSpot,
}

/// Whether `lot` has a spot numbered `spot_number`.
pub open spec fn has_spot(lot: Seq<SpotState>, spot_number: usize) -> bool {
    1 <= spot_number <= lot.len()
}

/// A registry of `count` spots, all empty.
pub open spec fn empty_lot(count: nat) -> Seq<SpotState> {
    Seq::new(count, |i: int| SpotState::Empty)
}

/// What the listing says of a spot in state `state`.
pub open spec fn status_text(state: SpotState) -> Seq<char> {
    match state {
        SpotState::Empty => "Empty"@,
        SpotState::Occupied { customer_name, vehicle_number, .. } => "Occupied by "@
            + customer_name + ", Vehicle No: "@ + vehicle_number,
    }
}

/// The line of the listing for spot `spot_number` in state `state`.
pub open spec fn spot_line(spot_number: nat, state: SpotState) -> Seq<char> {
    "Spot "@ + decimal(spot_number) + ": "@ + status_text(state)
}

/// The listing of `lot`: one line for each spot, in the order of their numbers.
pub open spec fn listing(lot: Seq<SpotState>) -> Seq<Seq<char>> {
    Seq::new(lot.len(), |i: int| spot_line((i + 1) as nat, lot[i]))
}

/// How booking spot `spot_number` of `lot` ends.
pub open spec fn book_outcome(lot: Seq<SpotState>, spot_number: usize) -> BookOutcome {
    if !has_spot(lot, spot_number) {
        BookOutcome::InvalidSpot
    } else if lot[spot_number - 1] is Occupied {
        BookOutcome::AlreadyOccupied { spot_number }
    } else {
        BookOutcome::Booked { spot_number }
    }
}

/// The registry after booking spot `spot_number` of `lot` at the time `now`
/// for a customer and a vehicle, whose names are recorded without the white
/// space around them.
pub open spec fn after_book(
    lot: Seq<SpotState>,
    spot_number: usize,
    customer_name: Seq<char>,
    vehicle_number: Seq<char>,
    now: u64,
) -> Seq<SpotState> {
    if book_outcome(lot, spot_number) is Booked {
        lot.update(
            spot_number - 1,
            SpotState::Occupied {
                customer_name: trimmed(customer_name),
                vehicle_number: trimmed(vehicle_number),
                reserved_at: now,
            },
        )
    } else {
        lot
    }
}

/// How releasing spot `spot_number` of `lot` at the time `now` ends.
pub open spec fn release_outcome(lot: Seq<SpotState>, spot_number: usize, now: u64)
    -> ReleaseOutcome {
    if !has_spot(lot, spot_number) {
        ReleaseOutcome::InvalidSpot
    } else {
        match lot[spot_number - 1] {
            SpotState::Empty => ReleaseOutcome::AlreadyEmpty { spot_number },
            SpotState::Occupied { reserved_at, .. } => ReleaseOutcome::Released {
                spot_number,
                duration: elapsed(reserved_at, now),
                fee: fee_for(elapsed(reserved_at, now) as nat) as u64,
            },
        }
    }
}

/// The registry after releasing spot `spot_number` of `lot`.
pub open spec fn after_release(lot: Seq<SpotState>, spot_number: usize) -> Seq<SpotState> {
    if has_spot(lot, spot_number) && lot[spot_number - 1] is Occupied {
        lot.update(spot_number - 1, SpotState::Empty)
    } else {
        lot
    }
}

/// The spot number that a line of input names: the line, without the white
/// space around it, is a numeral between 1 and [`NUM_SPOTS`].
pub open spec fn spot_number_of(input: Seq<char>) -> Option<usize> {
    match numeral_value(trimmed(input)) {
        Some(n) if 1 <= n <= NUM_SPOTS => Some(n as usize),
        _ => None,
    }
}

/// What is reported of a booking that ended in `outcome`.
pub open spec fn book_message(outcome: BookOutcome) -> Seq<char> {
    match outcome {
        BookOutcome::Booked { spot_number } => "Spot "@ + decimal(spot_number as nat)
            + " is booked."@,
        BookOutcome::AlreadyOccupied { spot_number } => "Spot "@ + decimal(spot_number as nat)
            + " is already occupied."@,
        BookOutcome::InvalidSpot => invalid_spot_message(),
    }
}

/// What is reported of a release that ended in `outcome`.
pub open spec fn release_message(outcome: ReleaseOutcome) -> Seq<char> {
    match outcome {
        ReleaseOutcome::Released { spot_number, duration, fee } => "Spot "@ + decimal(
            spot_number as nat,
        ) + " released. Duration: "@ + decimal(duration as nat) + " seconds. Fee: $"@ + decimal(
            fee as nat,
        ),
        ReleaseOutcome::AlreadyEmpty { spot_number } => "Spot "@ + decimal(spot_number as nat)
            + " is already empty."@,
        ReleaseOutcome::InvalidSpot => invalid_spot_message(),
    }
}

/// What is reported of a spot number that the registry does not have.
pub open spec fn invalid_spot_message() -> Seq<char> {
    "Invalid spot number. Please choose a spot between 1 and "@ + decimal(NUM_SPOTS as nat)
        + "."@
}

/// Makes a registry of `count` empty spots.
pub fn empty_parking_spots(count: usize) -> (parking_spots: Vec<ParkingSpot>)
    ensures
        parking_spots.deep_view() == empty_lot(count as nat),
{
    let mut parking_spots: Vec<ParkingSpot> = Vec::new();
    while parking_spots.len() < count
        invariant
            parking_spots.len() <= count,
            forall|i: int| 0 <= i < parking_spots.len() ==> parking_spots[i]@ == SpotState::Empty,
        decreases count - parking_spots.len(),
    {
        parking_spots.push(ParkingSpot::new());
    }
    assert(parking_spots.deep_view() =~= empty_lot(count as nat));
    parking_spots
}

/// Writes what the listing says of `spot`.
fn spot_status(spot: &ParkingSpot) -> (status: String)
    ensures
        status@ == status_text(spot@),
{
    match (spot.customer_name(), spot.vehicle_number()) {
        (Some(customer_name), Some(vehicle_number)) => {
            let mut status = "Occupied by ".to_owned();
            status.append(customer_name);
            status.append(", Vehicle No: ");
            status.append(vehicle_number);
            status
        },
        _ => "Empty".to_owned(),
    }
}

/// Lists the spots: one line for each, in the order of their numbers, that
/// says whether the spot is empty or by whom and by which vehicle it is
/// occupied.
pub fn display_parking_spots(parking_spots: &[ParkingSpot]) -> (lines: Vec<String>)
    ensures
        lines.deep_view() == listing(parking_spots.deep_view()),
{
    let mut lines: Vec<String> = Vec::new();
    let mut i: usize = 0;
    while i < parking_spots.len()
        invariant
            i <= parking_spots.len(),
            lines.len() == i,
            forall|k: int|
                0 <= k < i ==> lines[k]@ == spot_line((k + 1) as nat, #[trigger] parking_spots[k]@),
        decreases parking_spots.len() - i,
    {
        let mut line = "Spot ".to_owned();
        push_decimal(&mut line, i as u64 + 1);
        line.append(": ");
        let status = spot_status(&parking_spots[i]);
        line.append(status.as_str());
        lines.push(line);
        i = i + 1;
    }
    assert(lines.deep_view() =~= listing(parking_spots.deep_view()));
    lines
}

/// Tells how booking spot `spot_number` would end, without booking it.
pub fn inspect_parking_spot(parking_spots: &[ParkingSpot], spot_number: usize) -> (outcome:
    BookOutcome)
    ensures
        outcome == book_outcome(parking_spots.deep_view(), spot_number),
{
    if spot_number < 1 || spot_number > parking_spots.len() {
        BookOutcome::InvalidSpot
    } else if parking_spots[spot_number - 1].is_occupied() {
        BookOutcome::AlreadyOccupied { spot_number }
    } else {
        BookOutcome::Booked { spot_number }
    }
}

/// Books spot `spot_number` for a customer and a vehicle, stamped with the
/// current time. See [`book_parking_spot_at`].
pub fn book_parking_spot(
    parking_spots: &mut [ParkingSpot],
    spot_number: usize,
    customer_name: &str,
    vehicle_number: &str,
) -> (outcome: BookOutcome)
    ensures
        outcome == book_outcome(old(parking_spots).deep_view(), spot_number),
        exists|now: u64|
            final(parking_spots).deep_view() == after_book(
                old(parking_spots).deep_view(),
                spot_number,
                customer_name@,
                vehicle_number@,
                now,
            ),
{
    let now: u64 = current_timestamp();
    book_parking_spot_at(parking_spots, spot_number, customer_name, vehicle_number, now)
}

/// Books spot `spot_number` for a customer and a vehicle, stamped with the
/// time `now`.
///
/// An empty spot becomes occupied and records the two names, without the
/// white space around them, and `now`. An occupied spot, or a number that the
/// registry does not have, leaves the registry as it was.
pub fn book_parking_spot_at(
    parking_spots: &mut [ParkingSpot],
    spot_number: usize,
    customer_name: &str,
    vehicle_number: &str,
    now: u64,
) -> (outcome: BookOutcome)
    ensures
        outcome == book_outcome(old(parking_spots).deep_view(), spot_number),
        final(parking_spots).deep_view() == after_book(
            old(parking_spots).deep_view(),
            spot_number,
            customer_name@,
            vehicle_number@,
            now,
        ),
{
    let outcome = inspect_parking_spot(parking_spots, spot_number);
    if let BookOutcome::Booked { .. } = outcome {
        let customer_name = trim(customer_name).to_owned();
        let vehicle_number = trim(vehicle_number).to_owned();
        parking_spots[spot_number - 1].reserve_at(customer_name, vehicle_number, now);
    }
    outcome
}

/// Releases spot `spot_number` at the current time. See
/// [`release_parking_spot_at`].
pub fn release_parking_spot(parking_spots: &mut [ParkingSpot], spot_number: usize) -> (outcome:
    ReleaseOutcome)
    ensures
        final(parking_spots).deep_view() == after_release(
            old(parking_spots).deep_view(),
            spot_number,
        ),
        exists|now: u64|
            outcome == release_outcome(old(parking_spots).deep_view(), spot_number, now),
{
    let now: u64 = current_timestamp();
    release_parking_spot_at(parking_spots, spot_number, now)
}

/// Releases spot `spot_number` at the time `now`.
///
/// An occupied spot becomes empty; the outcome gives the seconds it was held
/// and the fee for them. An empty spot, or a number that the registry does not
/// have, leaves the registry as it was.
pub fn release_parking_spot_at(parking_spots: &mut [ParkingSpot], spot_number: usize, now: u64)
    -> (outcome: ReleaseOutcome)
    ensures
        outcome == release_outcome(old(parking_spots).deep_view(), spot_number, now),
        final(parking_spots).deep_view() == after_release(
            old(parking_spots).deep_view(),
            spot_number,
        ),
{
    if spot_number < 1 || spot_number > parking_spots.len() {
        return ReleaseOutcome::InvalidSpot;
    }
    match parking_spots[spot_number - 1].release_at(now) {
        Some(duration) => ReleaseOutcome::Released {
            spot_number,
            duration,
            fee: calculate_fee(duration),
        },
        None => ReleaseOutcome::AlreadyEmpty { spot_number },
    }
}

/// Reads a spot number from a line of input: `Some` for a numeral between 1
/// and [`NUM_SPOTS`], with or without white space around it, and `None` for
/// anything else.
pub fn get_spot_number(input: &str) -> (spot_number: Option<usize>)
    ensures
        spot_number == spot_number_of(input@),
        spot_number matches Some(n) ==> 1 <= n <= NUM_SPOTS,
{
    match parse_number(trim(input), NUM_SPOTS as u64) {
        Some(n) if n >= 1 => Some(n as usize),
        _ => None,
    }
}

impl BookOutcome {
    /// The line that reports this outcome.
    pub fn message(&self) -> (message: String)
        ensures
            message@ == book_message(*self),
    {
        match self {
            BookOutcome::Booked { spot_number } => {
                let mut message = "Spot ".to_owned();
                push_decimal(&mut message, *spot_number as u64);
                message.append(" is booked.");
                message
            },
            BookOutcome::AlreadyOccupied { spot_number } => {
                let mut message = "Spot ".to_owned();
                push_decimal(&mut message, *spot_number as u64);
                message.append(" is already occupied.");
                message
            },
            BookOutcome::InvalidSpot => invalid_spot(),
        }
    }
}

impl ReleaseOutcome {
    /// The line that reports this outcome.
    pub fn message(&self) -> (message: String)
        ensures
            message@ == release_message(*self),
    {
        match self {
            ReleaseOutcome::Released { spot_number, duration, fee } => {
                let mut message = "Spot ".to_owned();
                push_decimal(&mut message, *spot_number as u64);
                message.append(" released. Duration: ");
                push_decimal(&mut message, *duration);
                message.append(" seconds. Fee: $");
                push_decimal(&mut message, *fee);
                message
            },
            ReleaseOutcome::AlreadyEmpty { spot_number } => {
                let mut message = "Spot ".to_owned();
                push_decimal(&mut message, *spot_number as u64);
                message.append(" is already empty.");
                message
            },
            ReleaseOutcome::InvalidSpot => invalid_spot(),
        }
    }
}

/// A spot that has just been booked is listed as occupied by the customer and
/// the vehicle it was booked for, named as they were given but for the white
/// space around them; the lines of all other spots stay as they were.
pub proof fn lemma_booked_spot_is_listed(
    lot: Seq<SpotState>,
    spot_number: usize,
    customer_name: Seq<char>,
    vehicle_number: Seq<char>,
    now: u64,
)
    requires
        book_outcome(lot, spot_number) is Booked,
    ensures
        listing(after_book(lot, spot_number, customer_name, vehicle_number, now))[spot_number - 1]
            == "Spot "@ + decimal(spot_number as nat) + ": "@ + ("Occupied by "@ + trimmed(
            customer_name,
        ) + ", Vehicle No: "@ + trimmed(vehicle_number)),
        forall|i: int|
            0 <= i < lot.len() && i != spot_number - 1 ==> #[trigger] listing(
                after_book(lot, spot_number, customer_name, vehicle_number, now),
            )[i] == listing(lot)[i],
        listing(after_book(lot, spot_number, customer_name, vehicle_number, now)).len()
            == lot.len(),
{
}

/// A spot that has just been booked under names that neither begin nor end
/// with white space is listed with exactly those names.
pub proof fn lemma_booked_spot_is_listed_as_given(
    lot: Seq<SpotState>,
    spot_number: usize,
    customer_name: Seq<char>,
    vehicle_number: Seq<char>,
    now: u64,
)
    requires
        book_outcome(lot, spot_number) is Booked,
        customer_name.len() > 0 ==> !is_whitespace(customer_name[0]) && !is_whitespace(
            customer_name.last(),
        ),
        vehicle_number.len() > 0 ==> !is_whitespace(vehicle_number[0]) && !is_whitespace(
            vehicle_number.last(),
        ),
    ensures
        listing(after_book(lot, spot_number, customer_name, vehicle_number, now))[spot_number - 1]
            == "Spot "@ + decimal(spot_number as nat) + ": "@ + ("Occupied by "@ + customer_name
            + ", Vehicle No: "@ + vehicle_number),
{
    lemma_trimmed_of_trimmed(customer_name);
    lemma_trimmed_of_trimmed(vehicle_number);
}

/// Booking an occupied spot is refused as already occupied and leaves every
/// spot, this one included, as it was.
pub proof fn lemma_book_occupied_changes_nothing(
    lot: Seq<SpotState>,
    spot_number: usize,
    customer_name: Seq<char>,
    vehicle_number: Seq<char>,
    now: u64,
)
    requires
        has_spot(lot, spot_number),
        lot[spot_number - 1] is Occupied,
    ensures
        book_outcome(lot, spot_number) == (BookOutcome::AlreadyOccupied { spot_number }),
        after_book(lot, spot_number, customer_name, vehicle_number, now) == lot,
{
}

/// Releasing an empty spot is refused as already empty and leaves every spot as
/// it was.
pub proof fn lemma_release_empty_changes_nothing(lot: Seq<SpotState>, spot_number: usize, now: u64)
    requires
        has_spot(lot, spot_number),
        lot[spot_number - 1] is Empty,
    ensures
        release_outcome(lot, spot_number, now) == (ReleaseOutcome::AlreadyEmpty { spot_number }),
        after_release(lot, spot_number) == lot,
{
}

/// Releasing a spot after booking it leaves the spot empty, whether the
/// booking took effect or found the spot occupied. Where the booking took
/// effect, the release charges for the time between the two and gives back the
/// registry as it was before the booking.
pub proof fn lemma_release_after_book(
    lot: Seq<SpotState>,
    spot_number: usize,
    customer_name: Seq<char>,
    vehicle_number: Seq<char>,
    booked_at: u64,
    released_at: u64,
)
    requires
        has_spot(lot, spot_number),
    ensures
        ({
            let booked = after_book(lot, spot_number, customer_name, vehicle_number, booked_at);
            &&& after_release(booked, spot_number)[spot_number - 1] == SpotState::Empty
            &&& release_outcome(booked, spot_number, released_at) is Released
            &&& book_outcome(lot, spot_number) is Booked ==> {
                &&& after_release(booked, spot_number) == lot
                &&& release_outcome(booked, spot_number, released_at)
                    == (ReleaseOutcome::Released {
                    spot_number,
                    duration: elapsed(booked_at, released_at),
                    fee: fee_for(elapsed(booked_at, released_at) as nat) as u64,
                })
            }
        }),
{
    let booked = after_book(lot, spot_number, customer_name, vehicle_number, booked_at);
    if book_outcome(lot, spot_number) is Booked {
        assert(after_release(booked, spot_number) =~= lot);
    }
}

/// A spot number written in decimal is read back as that spot number exactly
/// when it lies between 1 and [`NUM_SPOTS`]; zero and every larger number are
/// turned away.
pub proof fn lemma_spot_number_of_decimal(n: nat)
    ensures
        spot_number_of(decimal(n)) == if 1 <= n <= NUM_SPOTS {
            Some(n as usize)
        } else {
            None
        },
{
    lemma_decimal_is_numeral(n);
}

/// Writes the report of a spot number that the registry does not have.
fn invalid_spot() -> (message: String)
    ensures
        message@ == invalid_spot_message(),
{
    let mut message = "Invalid spot number. Please choose a spot between 1 and ".to_owned();
    push_decimal(&mut message, NUM_SPOTS as u64);
    message.append(".");
    message
}

} // verus!
