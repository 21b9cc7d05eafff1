//! One waypoint of a route: what it holds, what kind of stop it is, and
//! how it is shown.

use vstd::prelude::*;
use vstd::string::StringExecFns;
use crate::color::{color_text, TrueColor};
use crate::quantity::{one_decimal_text, Quantity};

verus! {

/// What a waypoint means to the pilot.
#[derive(Debug, Copy, Clone, PartialEq, Eq, Structural)]
pub enum StarClass {
    Neutron,
    Refuel,
    Plain,
}

/// The class of a waypoint with the given flags. Refuelling comes first: a
/// refuel stop is one whether or not it is also a neutron star.
pub open spec fn classify(refuel: bool, neutron_star: bool) -> StarClass {
    if refuel {
        StarClass::Refuel
    } else if neutron_star {
        StarClass::Neutron
    } else {
        StarClass::Plain
    }
}

/// One row of the route file.
#[derive(Debug, Clone, PartialEq, Eq)]
pub struct CsvEntry {
    pub system_name: String,
    /// Length of the jump that arrives here, in light years.
    pub distance: Quantity,
    /// Light years from here to the destination.
    pub distance_remaining: Quantity,
    /// Tons of fuel in the tank on arrival.
    pub fuel_left: Quantity,
    /// Tons of fuel the jump burns.
    pub fuel_used: Quantity,
    pub refuel: bool,
    pub neutron_star: bool,
}

/// A waypoint as plain values; quantities in millionths.
pub ghost struct EntryView {
    pub system_name: Seq<char>,
    pub distance: nat,
    pub distance_remaining: nat,
    pub fuel_left: nat,
    pub fuel_used: nat,
    pub refuel: bool,
    pub neutron_star: bool,
}

impl View for CsvEntry {
    type V = EntryView;

    open spec fn view(&self) -> EntryView {
        EntryView {
            system_name: self.system_name@,
            distance: self.distance@,
            distance_remaining: self.distance_remaining@,
            fuel_left: self.fuel_left@,
            fuel_used: self.fuel_used@,
            refuel: self.refuel,
            neutron_star: self.neutron_star,
        }
    }
}

/// A route as plain values, waypoint by waypoint.
pub open spec fn route_view(records: Seq<CsvEntry>) -> Seq<EntryView> {
    records.map_values(|e: CsvEntry| e@)
}

impl EntryView {
    /// The class of this waypoint.
    pub open spec fn star(self) -> StarClass {
        classify(self.refuel, self.neutron_star)
    }
}

/// The background tint that opens the block of a waypoint of class
/// `class`: dark orange for a refuel stop, dark blue for a neutron star,
/// none otherwise.
pub open spec fn tint_text(class: StarClass) -> Seq<char> {
    match class {
        StarClass::Refuel => color_text(32, 16, 0, true),
        StarClass::Neutron => color_text(0, 0, 64, true),
        StarClass::Plain => Seq::empty(),
    }
}

/// The label that closes the block of a waypoint of class `class`.
pub open spec fn label_text(class: StarClass) -> Seq<char> {
    match class {
        StarClass::Refuel => "\x1b[97mRefuel"@,
        StarClass::Neutron => "\x1b[97mNeutron"@,
        StarClass::Plain => Seq::empty(),
    }
}

/// The two-line block that shows a waypoint: its name and the length of
/// the jump, then the distance that remains, the fuel burnt and the fuel
/// left, each to one decimal place, and the label of its class.
pub open spec fn entry_text(e: EntryView) -> Seq<char> {
    tint_text(e.star()) + "\x1b[96m"@ + e.system_name + "\x1b[37m: jump:\x1b[96m"@
        + one_decimal_text(e.distance) + "\x1b[37mly\n"@ + "remain:\x1b[96m"@ + one_decimal_text(
        e.distance_remaining,
    ) + "\x1b[37mly tank:\x1b[96m"@ + one_decimal_text(e.fuel_used) + "\x1b[37mT/\x1b[96m"@
        + one_decimal_text(e.fuel_left) + "\x1b[37mT "@ + label_text(e.star())
}

impl CsvEntry {
    /// The class of this waypoint.
    pub fn star(&self) -> (class: StarClass)
        ensures
            class == self@.star(),
            self.refuel ==> class == StarClass::Refuel,
            !self.refuel ==> (class == StarClass::Neutron <==> self.neutron_star),
            !self.refuel && !self.neutron_star ==> class == StarClass::Plain,
    {
        match (self.refuel, self.neutron_star) {
            (true, _) => StarClass::Refuel,
            (_, true) => StarClass::Neutron,
            _ => StarClass::Plain,
        }
    }

    /// Appends the block that shows this waypoint to `f`.
    pub fn fmt(&self, f: &mut String)
        ensures
            final(f)@ == old(f)@ + entry_text(self@),
    {
        match self.star() {
            StarClass::Refuel => TrueColor::bg(32, 16, 0).fmt(f),
            StarClass::Neutron => TrueColor::bg(0, 0, 64).fmt(f),
            StarClass::Plain => (),
        }
        assert(f@ =~= old(f)@ + tint_text(self@.star()));

        f.append("\x1b[96m");
        f.append(self.system_name.as_str());
        f.append("\x1b[37m: jump:\x1b[96m");
        self.distance.fmt_one_decimal(f);
        f.append("\x1b[37mly\n");

        f.append("remain:\x1b[96m");
        self.distance_remaining.fmt_one_decimal(f);
        f.append("\x1b[37mly tank:\x1b[96m");
        self.fuel_used.fmt_one_decimal(f);
        f.append("\x1b[37mT/\x1b[96m");
        self.fuel_left.fmt_one_decimal(f);
        f.append("\x1b[37mT ");

        match self.star() {
            StarClass::Refuel => f.append("\x1b[97mRefuel"),
            StarClass::Neutron => f.append("\x1b[97mNeutron"),
            StarClass::Plain => (),
        }
    }

    /// The block that shows this waypoint.
    pub fn to_string(&self) -> (s: String)
        ensures
            s@ == entry_text(self@),
    {
        let mut s = String::new();
        self.fmt(&mut s);
        s
    }
}

} // verus!
