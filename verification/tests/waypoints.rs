use neutron_route::entry::{CsvEntry, StarClass};
use neutron_route::input::{yesno_bool, InputError};
use neutron_route::quantity::Quantity;

fn waypoint(refuel: bool, neutron_star: bool) -> CsvEntry {
    CsvEntry {
        system_name: String::from("Colonia"),
        distance: Quantity::from_millionths(1_205_566_037),
        distance_remaining: Quantity::from_millionths(20_794_433_963),
        fuel_left: Quantity::from_millionths(26_750_000),
        fuel_used: Quantity::from_millionths(5_250_000),
        refuel,
        neutron_star,
    }
}

const BODY: &str = "\x1b[96mColonia\x1b[37m: jump:\x1b[96m1205.6\x1b[37mly\n\
remain:\x1b[96m20794.4\x1b[37mly tank:\x1b[96m5.2\x1b[37mT/\x1b[96m26.8\x1b[37mT ";

#[test]
fn refuel_comes_before_neutron() {
    assert_eq!(waypoint(true, true).star(), StarClass::Refuel);
    assert_eq!(waypoint(true, false).star(), StarClass::Refuel);
}

#[test]
fn neutron_only_without_refuel() {
    assert_eq!(waypoint(false, true).star(), StarClass::Neutron);
}

#[test]
fn plain_without_flags() {
    assert_eq!(waypoint(false, false).star(), StarClass::Plain);
}

#[test]
fn plain_waypoint_has_no_tint_and_no_label() {
    assert_eq!(waypoint(false, false).to_string(), BODY);
}

#[test]
fn refuel_waypoint_is_tinted_and_labelled() {
    let expected = format!("\x1b[48;2;32;16;0m{}\x1b[97mRefuel", BODY);
    assert_eq!(waypoint(true, false).to_string(), expected);
    assert_eq!(waypoint(true, true).to_string(), expected);
}

#[test]
fn neutron_waypoint_is_tinted_and_labelled() {
    let expected = format!("\x1b[48;2;0;0;64m{}\x1b[97mNeutron", BODY);
    assert_eq!(waypoint(false, true).to_string(), expected);
}

#[test]
fn waypoint_appends_to_what_is_there() {
    let mut s = String::from(">");
    waypoint(false, false).fmt(&mut s);
    assert_eq!(s, format!(">{}", BODY));
}

#[test]
fn waypoint_with_zero_quantities() {
    let e = CsvEntry {
        system_name: String::from("Sol"),
        distance: Quantity::from_millionths(0),
        distance_remaining: Quantity::from_millionths(0),
        fuel_left: Quantity::from_millionths(0),
        fuel_used: Quantity::from_millionths(0),
        refuel: false,
        neutron_star: false,
    };
    assert_eq!(
        e.to_string(),
        "\x1b[96mSol\x1b[37m: jump:\x1b[96m0.0\x1b[37mly\n\
remain:\x1b[96m0.0\x1b[37mly tank:\x1b[96m0.0\x1b[37mT/\x1b[96m0.0\x1b[37mT "
    );
}

#[test]
fn yes_and_no_decode() {
    assert_eq!(yesno_bool("Yes"), Ok(true));
    assert_eq!(yesno_bool("No"), Ok(false));
}

#[test]
fn maybe_is_refused_and_named() {
    let err = yesno_bool("Maybe").unwrap_err();
    assert_eq!(err, InputError::UnknownVariant(String::from("Maybe")));
    assert_eq!(err.message(), "unknown variant `Maybe`, expected `Yes` or `No`");
}

#[test]
fn other_spellings_are_refused() {
    for cell in ["", "yes", "YES", "no", " Yes", "Yes ", "true", "1", "Y", "Non"] {
        assert_eq!(yesno_bool(cell), Err(InputError::UnknownVariant(String::from(cell))));
    }
}
