//! The command loop, as a state machine over lines of input.
//!
//! A [`Console`] owns a registry of [`NUM_SPOTS`] spots and knows what it is
//! waiting for. Whoever drives it shows [`Console::prompt`], reads a line,
//! hands the line to [`Console::step`], prints the lines that come back, and
//! goes on until [`Console::is_terminated`].

use crate::clock::current_timestamp;
use crate::registry::{
    after_book, after_release, book_message, book_outcome, book_parking_spot_at,
    display_parking_spots, empty_lot, empty_parking_spots, get_spot_number, has_spot, listing,
    release_message, release_outcome, release_parking_spot_at, spot_number_of, BookOutcome,
    NUM_SPOTS,
};
use crate::spot::{ParkingSpot, SpotState};
use crate::text::{decimal, push_decimal, trim, trimmed};
use vstd::prelude::*;

verus! {

/// What a line entered at the menu asks for.
#[derive(Clone, Copy, Debug, PartialEq, Eq, Structural)]
pub enum MenuChoice {
    Display,
    Book,
    Release,
    Exit,
    Invalid,
}

/// What the console is waiting for.
#[derive(Debug, PartialEq, Eq)]
pub enum Stage {
    /// A choice from the menu.
    Choice,
    /// The number of the spot to book.
    SpotToBook,
    /// The name of the customer who books spot `spot_number`.
    CustomerName { spot_number: usize },
    /// The number of the vehicle that `customer_name` books spot
    /// `spot_number` for.
    VehicleNumber { spot_number: usize, customer_name: String },
    /// The number of the spot to release.
    SpotToRelease,
    /// Nothing: the loop has ended.
    Terminated,
}

/// A [`Stage`] with its text as a sequence of characters.
pub enum Awaiting {
    Choice,
    SpotToBook,
    CustomerName { spot_number: usize },
    VehicleNumber { spot_number: usize, customer_name: Seq<char> },
    SpotToRelease,
    Terminated,
}

impl View for Stage {
    type V = Awaiting;

    open spec fn view(&self) -> Awaiting {
        match *self {
            Stage::Choice => Awaiting::Choice,
            Stage::SpotToBook => Awaiting::SpotToBook,
            Stage::CustomerName { spot_number } => Awaiting::CustomerName { spot_number },
            Stage::VehicleNumber { spot_number, customer_name } => Awaiting::VehicleNumber {
                spot_number,
                customer_name: customer_name@,
            },
            Stage::SpotToRelease => Awaiting::SpotToRelease,
            Stage::Terminated => Awaiting::Terminated,
        }
    }
}

/// The state of a console: its registry and what it is waiting for.
pub struct ConsoleState {
    pub lot: Seq<SpotState>,
    pub awaiting: Awaiting,
}

/// The command loop: a registry and the stage the dialogue has reached.
pub struct Console {
    parking_spots: Vec<ParkingSpot>,
    stage: Stage,
}

impl View for Console {
    type V = ConsoleState;

    closed spec fn view(&self) -> ConsoleState {
        ConsoleState { lot: self.parking_spots.deep_view(), awaiting: self.stage@ }
    }
}

/// The choice that a line entered at the menu makes: `1` to `4`, with or
/// without white space around it, and nothing else.
pub open spec fn choice_of(input: Seq<char>) -> MenuChoice {
    let entry = trimmed(input);
    if entry == seq!['1'] {
        MenuChoice::Display
    } else if entry == seq!['2'] {
        MenuChoice::Book
    } else if entry == seq!['3'] {
        MenuChoice::Release
    } else if entry == seq!['4'] {
        MenuChoice::Exit
    } else {
        MenuChoice::Invalid
    }
}

/// The state in which every console starts: all spots empty, waiting for a
/// choice from the menu.
pub open spec fn initial_state() -> ConsoleState {
    ConsoleState { lot: empty_lot(NUM_SPOTS as nat), awaiting: Awaiting::Choice }
}

/// What holds of every state that a console reaches: the registry has
/// [`NUM_SPOTS`] spots, and a booking that is under way is for a spot that the
/// registry has, be it empty or occupied.
pub open spec fn valid_state(state: ConsoleState) -> bool {
    &&& state.lot.len() == NUM_SPOTS
    &&& match state.awaiting {
        Awaiting::CustomerName { spot_number } => has_spot(state.lot, spot_number),
        Awaiting::VehicleNumber { spot_number, .. } => has_spot(state.lot, spot_number),
        _ => true,
    }
}

/// What is shown before a line is read: the menu when a choice is awaited,
/// else the question to be answered.
pub open spec fn prompt_text(awaiting: Awaiting) -> Seq<char> {
    match awaiting {
        Awaiting::Choice =>
            "\nOptions:\n1. Display parking spots\n2. Book a parking spot\n3. Release a parking spot\n4. Exit\nEnter your choice: "@,
        Awaiting::SpotToBook => "Enter the spot number to book: "@,
        Awaiting::CustomerName { .. } => "Enter customer name: "@,
        Awaiting::VehicleNumber { .. } => "Enter vehicle number: "@,
        Awaiting::SpotToRelease => "Enter the spot number to release: "@,
        Awaiting::Terminated => ""@,
    }
}

/// What is reported of a line that names no spot.
pub open spec fn invalid_input_message() -> Seq<char> {
    "Invalid input. Please enter a number between 1 and "@ + decimal(NUM_SPOTS as nat) + "."@
}

/// The state that follows `state` when `line` is entered at the time `now`.
pub open spec fn next_state(state: ConsoleState, line: Seq<char>, now: u64) -> ConsoleState {
    match state.awaiting {
        Awaiting::Choice => match choice_of(line) {
            MenuChoice::Book => ConsoleState { awaiting: Awaiting::SpotToBook, ..state },
            MenuChoice::Release => ConsoleState { awaiting: Awaiting::SpotToRelease, ..state },
            MenuChoice::Exit => ConsoleState { awaiting: Awaiting::Terminated, ..state },
            MenuChoice::Display | MenuChoice::Invalid => state,
        },
        Awaiting::SpotToBook => match spot_number_of(line) {
            Some(spot_number) => ConsoleState {
                awaiting: Awaiting::CustomerName { spot_number },
                ..state
            },
            None => state,
        },
        Awaiting::CustomerName { spot_number } => ConsoleState {
            awaiting: Awaiting::VehicleNumber { spot_number, customer_name: line },
            ..state
        },
        Awaiting::VehicleNumber { spot_number, customer_name } => ConsoleState {
            lot: after_book(state.lot, spot_number, customer_name, line, now),
            awaiting: Awaiting::Choice,
        },
        Awaiting::SpotToRelease => match spot_number_of(line) {
            Some(spot_number) => ConsoleState {
                lot: after_release(state.lot, spot_number),
                awaiting: Awaiting::Choice,
            },
            None => state,
        },
        Awaiting::Terminated => state,
    }
}

/// The lines that are reported when `line` is entered in `state` at the time
/// `now`.
pub open spec fn report_of(state: ConsoleState, line: Seq<char>, now: u64) -> Seq<Seq<char>> {
    match state.awaiting {
        Awaiting::Choice => match choice_of(line) {
            MenuChoice::Display => seq!["\nParking spots:"@] + listing(state.lot),
            MenuChoice::Book | MenuChoice::Release => seq![],
            MenuChoice::Exit => seq!["Exiting the parking system."@],
            MenuChoice::Invalid => seq!["Invalid choice. Please select a valid option."@],
        },
        Awaiting::SpotToBook => match spot_number_of(line) {
            Some(_) => seq![],
            None => seq![invalid_input_message()],
        },
        Awaiting::CustomerName { .. } => seq![],
        Awaiting::VehicleNumber { spot_number, .. } => seq![
            book_message(book_outcome(state.lot, spot_number)),
        ],
        Awaiting::SpotToRelease => match spot_number_of(line) {
            Some(spot_number) => seq![
                release_message(release_outcome(state.lot, spot_number, now)),
            ],
            None => seq![invalid_input_message()],
        },
        Awaiting::Terminated => seq![],
    }
}

/// A console starts in a valid state.
pub proof fn lemma_initial_state_valid()
    ensures
        valid_state(initial_state()),
{
}

/// Whatever line is entered, and whenever, a valid state is followed by a
/// valid state.
pub proof fn lemma_next_state_valid(state: ConsoleState, line: Seq<char>, now: u64)
    requires
        valid_state(state),
    ensures
        valid_state(next_state(state, line, now)),
{
}

/// The loop ends on the choice to exit, made at the menu, and on nothing
/// else; once ended it stays so, reports nothing and changes nothing.
pub proof fn lemma_terminates_on_exit_only(state: ConsoleState, line: Seq<char>, now: u64)
    ensures
        next_state(state, line, now).awaiting is Terminated <==> state.awaiting is Terminated || (
        state.awaiting is Choice && choice_of(line) is Exit),
        state.awaiting is Terminated ==> next_state(state, line, now) == state && report_of(
            state,
            line,
            now,
        ) == Seq::<Seq<char>>::empty(),
{
}

/// A line that names a spot is followed by the questions for the customer's
/// name and the vehicle's number, whatever the spot holds; neither the number
/// nor the name is answered with a report, and the registry stays as it is.
pub proof fn lemma_spot_number_is_followed_by_both_questions(
    state: ConsoleState,
    number: Seq<char>,
    name: Seq<char>,
    now: u64,
)
    requires
        state.awaiting is SpotToBook,
        spot_number_of(number) is Some,
    ensures
        ({
            let spot_number = spot_number_of(number)->0;
            let named = next_state(state, number, now);
            let asked = next_state(named, name, now);
            &&& named == ConsoleState { awaiting: Awaiting::CustomerName { spot_number }, ..state }
            &&& asked == ConsoleState {
                awaiting: Awaiting::VehicleNumber { spot_number, customer_name: name },
                ..state
            }
            &&& report_of(state, number, now) == Seq::<Seq<char>>::empty()
            &&& report_of(named, name, now) == Seq::<Seq<char>>::empty()
        }),
{
}

/// Where the spot is empty, the vehicle number completes the booking: the
/// spot is booked for the customer and the vehicle as of `now`, the booking
/// is reported, and the menu is next.
pub proof fn lemma_vehicle_number_completes_booking(
    state: ConsoleState,
    line: Seq<char>,
    now: u64,
)
    requires
        valid_state(state),
        state.awaiting is VehicleNumber,
        state.lot[state.awaiting->VehicleNumber_spot_number - 1] is Empty,
    ensures
        ({
            let spot_number = state.awaiting->VehicleNumber_spot_number;
            let customer_name = state.awaiting->VehicleNumber_customer_name;
            &&& next_state(state, line, now).awaiting is Choice
            &&& next_state(state, line, now).lot == state.lot.update(
                spot_number - 1,
                SpotState::Occupied {
                    customer_name: trimmed(customer_name),
                    vehicle_number: trimmed(line),
                    reserved_at: now,
                },
            )
            &&& report_of(state, line, now) == seq![
                book_message(BookOutcome::Booked { spot_number }),
            ]
        }),
{
}

/// Where the spot is occupied, the vehicle number ends the booking without
/// effect: the registry stays as it is, the spot is reported as already
/// occupied, and the menu is next.
pub proof fn lemma_vehicle_number_for_occupied_spot_changes_nothing(
    state: ConsoleState,
    line: Seq<char>,
    now: u64,
)
    requires
        valid_state(state),
        state.awaiting is VehicleNumber,
        state.lot[state.awaiting->VehicleNumber_spot_number - 1] is Occupied,
    ensures
        ({
            let spot_number = state.awaiting->VehicleNumber_spot_number;
            &&& next_state(state, line, now) == ConsoleState {
                awaiting: Awaiting::Choice,
                ..state
            }
            &&& report_of(state, line, now) == seq![
                book_message(BookOutcome::AlreadyOccupied { spot_number }),
            ]
        }),
{
}

/// Only the line that completes a booking and the line that names a spot to
/// release change the registry.
pub proof fn lemma_registry_changes_only_on_book_and_release(
    state: ConsoleState,
    line: Seq<char>,
    now: u64,
)
    requires
        !(state.awaiting is VehicleNumber),
        !(state.awaiting is SpotToRelease),
    ensures
        next_state(state, line, now).lot == state.lot,
{
}

/// Reads a line entered at the menu.
pub fn parse_choice(input: &str) -> (choice: MenuChoice)
    ensures
        choice == choice_of(input@),
{
    let entry = trim(input);
    if entry.unicode_len() != 1 {
        return MenuChoice::Invalid;
    }
    let c = entry.get_char(0);
    assert(entry@ == seq![c]);
    if c == '1' {
        MenuChoice::Display
    } else if c == '2' {
        MenuChoice::Book
    } else if c == '3' {
        MenuChoice::Release
    } else if c == '4' {
        MenuChoice::Exit
    } else {
        assert(seq!['1'][0] == '1' && seq!['2'][0] == '2' && seq!['3'][0] == '3' && seq!['4'][0]
            == '4');
        MenuChoice::Invalid
    }
}

/// Writes the report of a line that names no spot.
fn invalid_input() -> (message: String)
    ensures
        message@ == invalid_input_message(),
{
    let mut message = "Invalid input. Please enter a number between 1 and ".to_owned();
    push_decimal(&mut message, NUM_SPOTS as u64);
    message.append(".");
    message
}

impl Console {
    /// A console in its initial state.
    pub fn new() -> (console: Self)
        ensures
            console@ == initial_state(),
            valid_state(console@),
    {
        Console { parking_spots: empty_parking_spots(NUM_SPOTS), stage: Stage::Choice }
    }

    /// The spots of the registry, in the order of their numbers.
    pub fn parking_spots(&self) -> (parking_spots: &[ParkingSpot])
        ensures
            parking_spots.deep_view() == self@.lot,
    {
        self.parking_spots.as_slice()
    }

    /// What the console is waiting for.
    pub fn stage(&self) -> (stage: &Stage)
        ensures
            stage@ == self@.awaiting,
    {
        &self.stage
    }

    /// Whether the loop has ended.
    pub fn is_terminated(&self) -> (terminated: bool)
        ensures
            terminated == (self@.awaiting is Terminated),
    {
        match self.stage {
            Stage::Terminated => true,
            _ => false,
        }
    }

    /// The text to show before the next line is read.
    pub fn prompt(&self) -> (text: String)
        ensures
            text@ == prompt_text(self@.awaiting),
    {
        match self.stage {
            Stage::Choice =>
                "\nOptions:\n1. Display parking spots\n2. Book a parking spot\n3. Release a parking spot\n4. Exit\nEnter your choice: ".to_owned(),
            Stage::SpotToBook => "Enter the spot number to book: ".to_owned(),
            Stage::CustomerName { .. } => "Enter customer name: ".to_owned(),
            Stage::VehicleNumber { .. } => "Enter vehicle number: ".to_owned(),
            Stage::SpotToRelease => "Enter the spot number to release: ".to_owned(),
            Stage::Terminated => "".to_owned(),
        }
    }

    /// Takes a line of input at the current time and returns the lines to
    /// report. See [`Console::step_at`].
    pub fn step(&mut self, line: &str) -> (report: Vec<String>)
        ensures
            exists|now: u64|
                final(self)@ == next_state(old(self)@, line@, now) && report.deep_view()
                    == report_of(old(self)@, line@, now),
            valid_state(old(self)@) ==> valid_state(final(self)@),
    {
        let now: u64 = current_timestamp();
        self.step_at(line, now)
    }

    /// Takes a line of input at the time `now` and returns the lines to
    /// report, each to be printed on a line of its own.
    pub fn step_at(&mut self, line: &str, now: u64) -> (report: Vec<String>)
        ensures
            final(self)@ == next_state(old(self)@, line@, now),
            report.deep_view() == report_of(old(self)@, line@, now),
            valid_state(old(self)@) ==> valid_state(final(self)@),
    {
        let mut stage = Stage::Choice;
        core::mem::swap(&mut self.stage, &mut stage);
        let mut report: Vec<String> = Vec::new();
        match stage {
            Stage::Choice => match parse_choice(line) {
                MenuChoice::Display => {
                    report.push("\nParking spots:".to_owned());
                    let mut lines = display_parking_spots(self.parking_spots.as_slice());
                    report.append(&mut lines);
                },
                MenuChoice::Book => {
                    self.stage = Stage::SpotToBook;
                },
                MenuChoice::Release => {
                    self.stage = Stage::SpotToRelease;
                },
                MenuChoice::Exit => {
                    report.push("Exiting the parking system.".to_owned());
                    self.stage = Stage::Terminated;
                },
                MenuChoice::Invalid => {
                    report.push("Invalid choice. Please select a valid option.".to_owned());
                },
            },
            Stage::SpotToBook => match get_spot_number(line) {
                Some(spot_number) => {
                    self.stage = Stage::CustomerName { spot_number };
                },
                None => {
                    report.push(invalid_input());
                    self.stage = Stage::SpotToBook;
                },
            },
            Stage::CustomerName { spot_number } => {
                self.stage = Stage::VehicleNumber { spot_number, customer_name: line.to_owned() };
            },
            Stage::VehicleNumber { spot_number, customer_name } => {
                let outcome = book_parking_spot_at(
                    self.parking_spots.as_mut_slice(),
                    spot_number,
                    customer_name.as_str(),
                    line,
                    now,
                );
                report.push(outcome.message());
            },
            Stage::SpotToRelease => match get_spot_number(line) {
                Some(spot_number) => {
                    let outcome = release_parking_spot_at(
                        self.parking_spots.as_mut_slice(),
                        spot_number,
                        now,
                    );
                    report.push(outcome.message());
                },
                None => {
                    report.push(invalid_input());
                    self.stage = Stage::SpotToRelease;
                },
            },
            Stage::Terminated => {
                self.stage = Stage::Terminated;
            },
        }
        assert(report.deep_view() =~= report_of(old(self)@, line@, now));
        report
    }
}

} // verus!
