use parking_system::console::{parse_choice, Console, MenuChoice, Stage};
use parking_system::registry::NUM_SPOTS;

const MENU: &str = "\nOptions:\n1. Display parking spots\n2. Book a parking spot\n3. Release a parking spot\n4. Exit\nEnter your choice: ";

const INVALID_INPUT: &str = "Invalid input. Please enter a number between 1 and 30.";

fn enter(console: &mut Console, lines: &[&str], now: u64) -> Vec<String> {
    let mut report = Vec::new();
    for line in lines {
        report.extend(console.step_at(line, now));
    }
    report
}

#[test]
fn choice_reads_the_four_options() {
    assert_eq!(parse_choice("1"), MenuChoice::Display);
    assert_eq!(parse_choice("2"), MenuChoice::Book);
    assert_eq!(parse_choice("3"), MenuChoice::Release);
    assert_eq!(parse_choice("4"), MenuChoice::Exit);
}

#[test]
fn choice_ignores_outer_white_space() {
    assert_eq!(parse_choice("1\n"), MenuChoice::Display);
    assert_eq!(parse_choice("  2\r\n"), MenuChoice::Book);
    assert_eq!(parse_choice("\t3 "), MenuChoice::Release);
    assert_eq!(parse_choice(" 4"), MenuChoice::Exit);
}

#[test]
fn choice_rejects_everything_else() {
    for input in ["", "\n", "0", "5", "11", "1 2", "+1", "01", "one", "exit", "list", "١"] {
        assert_eq!(parse_choice(input), MenuChoice::Invalid);
    }
}

#[test]
fn console_starts_at_the_menu_with_thirty_empty_spots() {
    let console = Console::new();
    assert_eq!(console.stage(), &Stage::Choice);
    assert!(!console.is_terminated());
    assert_eq!(console.prompt(), MENU);
    assert_eq!(console.parking_spots().len(), NUM_SPOTS);
    assert!(console.parking_spots().iter().all(|spot| !spot.is_occupied()));
}

#[test]
fn console_lists_the_spots() {
    let mut console = Console::new();
    let report = console.step_at("1\n", 0);
    assert_eq!(report.len(), 31);
    assert_eq!(report[0], "\nParking spots:");
    for n in 1..=30 {
        assert_eq!(report[n], format!("Spot {}: Empty", n));
    }
    assert_eq!(console.stage(), &Stage::Choice);
    assert_eq!(console.prompt(), MENU);
}

#[test]
fn console_reports_an_invalid_choice() {
    let mut console = Console::new();
    let report = console.step_at("9\n", 0);
    assert_eq!(report, vec!["Invalid choice. Please select a valid option.".to_string()]);
    assert_eq!(console.stage(), &Stage::Choice);
    assert_eq!(console.step_at("", 0), vec!["Invalid choice. Please select a valid option."]);
}

#[test]
fn console_books_a_spot_in_four_lines() {
    let mut console = Console::new();
    assert!(console.step_at("2\n", 5).is_empty());
    assert_eq!(console.stage(), &Stage::SpotToBook);
    assert_eq!(console.prompt(), "Enter the spot number to book: ");

    assert!(console.step_at("7\n", 5).is_empty());
    assert_eq!(console.stage(), &Stage::CustomerName { spot_number: 7 });
    assert_eq!(console.prompt(), "Enter customer name: ");

    assert!(console.step_at("  Alice \n", 5).is_empty());
    assert_eq!(
        console.stage(),
        &Stage::VehicleNumber { spot_number: 7, customer_name: "  Alice \n".to_string() }
    );
    assert_eq!(console.prompt(), "Enter vehicle number: ");
    assert!(!console.parking_spots()[6].is_occupied());

    let report = console.step_at("KA01AB1234\n", 1_700_000_000);
    assert_eq!(report, vec!["Spot 7 is booked.".to_string()]);
    assert_eq!(console.stage(), &Stage::Choice);
    let spot = &console.parking_spots()[6];
    assert_eq!(spot.customer_name(), Some("Alice"));
    assert_eq!(spot.vehicle_number(), Some("KA01AB1234"));
    assert_eq!(spot.reserved_at(), Some(1_700_000_000));
    for (i, spot) in console.parking_spots().iter().enumerate() {
        assert_eq!(spot.is_occupied(), i == 6);
    }
}

#[test]
fn console_asks_again_for_a_spot_number_that_is_no_spot() {
    let mut console = Console::new();
    console.step_at("2", 0);
    for line in ["0\n", "31\n", "abc\n", "\n", "-3\n", "1.5\n"] {
        assert_eq!(console.step_at(line, 0), vec![INVALID_INPUT.to_string()]);
        assert_eq!(console.stage(), &Stage::SpotToBook);
    }
    assert!(console.step_at("30\n", 0).is_empty());
    assert_eq!(console.stage(), &Stage::CustomerName { spot_number: 30 });

    let mut console = Console::new();
    console.step_at("3", 0);
    assert_eq!(console.prompt(), "Enter the spot number to release: ");
    for line in ["0\n", "31\n", "abc\n", "\n"] {
        assert_eq!(console.step_at(line, 0), vec![INVALID_INPUT.to_string()]);
        assert_eq!(console.stage(), &Stage::SpotToRelease);
    }
    assert_eq!(console.step_at("1\n", 0), vec!["Spot 1 is already empty.".to_string()]);
    assert_eq!(console.stage(), &Stage::Choice);
}

#[test]
fn console_asks_both_names_before_refusing_an_occupied_spot() {
    let mut console = Console::new();
    enter(&mut console, &["2", "3", "Alice", "KA01AB1234"], 100);
    assert!(console.step_at("2", 200).is_empty());

    assert!(console.step_at("3", 200).is_empty());
    assert_eq!(console.stage(), &Stage::CustomerName { spot_number: 3 });
    assert_eq!(console.prompt(), "Enter customer name: ");

    assert!(console.step_at("Bob\n", 200).is_empty());
    assert_eq!(
        console.stage(),
        &Stage::VehicleNumber { spot_number: 3, customer_name: "Bob\n".to_string() }
    );
    assert_eq!(console.prompt(), "Enter vehicle number: ");

    let report = console.step_at("MH12CD5678\n", 200);
    assert_eq!(report, vec!["Spot 3 is already occupied.".to_string()]);
    assert_eq!(console.stage(), &Stage::Choice);
    let spot = &console.parking_spots()[2];
    assert_eq!(spot.customer_name(), Some("Alice"));
    assert_eq!(spot.vehicle_number(), Some("KA01AB1234"));
    assert_eq!(spot.reserved_at(), Some(100));
    for (i, spot) in console.parking_spots().iter().enumerate() {
        assert_eq!(spot.is_occupied(), i == 2);
    }
}

#[test]
fn console_releases_a_spot_and_charges_for_it() {
    let mut console = Console::new();
    enter(&mut console, &["2", "12", "Bob", "MH12CD5678"], 1_000);
    assert!(console.step_at("3\n", 4_601).is_empty());
    assert_eq!(console.stage(), &Stage::SpotToRelease);
    let report = console.step_at("12\n", 4_601);
    assert_eq!(report, vec!["Spot 12 released. Duration: 3601 seconds. Fee: $6".to_string()]);
    assert_eq!(console.stage(), &Stage::Choice);
    assert!(console.parking_spots().iter().all(|spot| !spot.is_occupied()));
}

#[test]
fn console_exits_on_the_fourth_option_and_stays_ended() {
    let mut console = Console::new();
    enter(&mut console, &["2", "1", "Alice", "KA01AB1234"], 10);
    let report = console.step_at("4\n", 20);
    assert_eq!(report, vec!["Exiting the parking system.".to_string()]);
    assert!(console.is_terminated());
    assert_eq!(console.stage(), &Stage::Terminated);
    assert_eq!(console.prompt(), "");
    for line in ["1", "2", "3", "4", ""] {
        assert!(console.step_at(line, 30).is_empty());
        assert!(console.is_terminated());
    }
    assert!(console.parking_spots()[0].is_occupied());
}

#[test]
fn console_takes_a_digit_for_a_name_while_booking() {
    let mut console = Console::new();
    enter(&mut console, &["2", "5", "4", "4"], 10);
    assert!(!console.is_terminated());
    assert_eq!(console.parking_spots()[4].customer_name(), Some("4"));
    assert_eq!(console.parking_spots()[4].vehicle_number(), Some("4"));
}

#[test]
fn console_scenario_book_list_release_list() {
    let mut console = Console::new();
    let booked_at = 1_700_000_000;
    let report = enter(&mut console, &["2\n", "1\n", "Alice\n", "KA01AB1234\n"], booked_at);
    assert_eq!(report, vec!["Spot 1 is booked.".to_string()]);

    let report = console.step_at("1\n", booked_at + 60);
    assert_eq!(report[0], "\nParking spots:");
    assert_eq!(report[1], "Spot 1: Occupied by Alice, Vehicle No: KA01AB1234");
    for n in 2..=30 {
        assert_eq!(report[n], format!("Spot {}: Empty", n));
    }

    let report = enter(&mut console, &["3\n", "1\n"], booked_at + 7_200);
    assert_eq!(report, vec!["Spot 1 released. Duration: 7200 seconds. Fee: $10".to_string()]);

    let report = console.step_at("1\n", booked_at + 7_300);
    assert_eq!(report.len(), 31);
    for n in 1..=30 {
        assert_eq!(report[n], format!("Spot {}: Empty", n));
    }
}

#[test]
fn console_step_reads_the_clock() {
    let mut console = Console::new();
    for line in ["2", "9", "Alice", "KA01AB1234"] {
        console.step(line);
    }
    let spot = &console.parking_spots()[8];
    assert_eq!(spot.customer_name(), Some("Alice"));
    assert!(spot.reserved_at().unwrap() > 1_000_000_000);
    console.step("3");
    let report = console.step("9");
    assert_eq!(report.len(), 1);
    assert!(report[0].starts_with("Spot 9 released. Duration: "));
    assert!(!console.parking_spots()[8].is_occupied());
    assert_eq!(console.step("4"), vec!["Exiting the parking system.".to_string()]);
    assert!(console.is_terminated());
}
