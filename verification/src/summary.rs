//! The figures of a whole route, and the panel that shows them.

use vstd::prelude::*;
use vstd::string::StringExecFns;
use crate::entry::{route_view, CsvEntry, EntryView};
use crate::numeral::{decimal_text, push_decimal};
use crate::quantity::{thousands_text, Quantity};

verus! {

/// A route without a single system has no summary.
#[derive(Debug, Copy, Clone, PartialEq, Eq, Structural)]
pub struct EmptyRouteError;

impl EmptyRouteError {
    /// What the error says to the user.
    pub fn message(&self) -> (s: String)
        ensures
            s@ == "No Systems in route file"@,
    {
        "No Systems in route file".to_owned()
    }
}

/// The figures of a route.
#[derive(Debug, Clone, PartialEq, Eq)]
pub struct RouteSummary {
    /// Where the route starts.
    pub first: String,
    /// Where it ends.
    pub last: String,
    /// Light years to the destination as of the first system.
    pub distance: Quantity,
    /// Jumps between systems: one fewer than there are systems.
    pub jumps: usize,
    /// Systems flagged as neutron stars.
    pub neutron_stars: usize,
    /// Systems flagged as refuel stops.
    pub fuel_stops: usize,
}

/// The figures of a route as plain values; the distance in millionths.
pub ghost struct SummaryView {
    pub first: Seq<char>,
    pub last: Seq<char>,
    pub distance: nat,
    pub jumps: nat,
    pub neutron_stars: nat,
    pub fuel_stops: nat,
}

impl View for RouteSummary {
    type V = SummaryView;

    open spec fn view(&self) -> SummaryView {
        SummaryView {
            first: self.first@,
            last: self.last@,
            distance: self.distance@,
            jumps: self.jumps as nat,
            neutron_stars: self.neutron_stars as nat,
            fuel_stops: self.fuel_stops as nat,
        }
    }
}

/// How many systems of `route` are flagged as neutron stars, refuel stops
/// among them.
pub open spec fn neutron_count(route: Seq<EntryView>) -> nat {
    route.filter(|e: EntryView| e.neutron_star).len()
}

/// How many systems of `route` are flagged as refuel stops.
pub open spec fn refuel_count(route: Seq<EntryView>) -> nat {
    route.filter(|e: EntryView| e.refuel).len()
}

/// The figures of a route that has at least one system. The two counts go
/// by the flags as the file gives them, each on its own: a system with
/// both flags set counts once under each.
pub open spec fn summary_of(route: Seq<EntryView>) -> SummaryView
    recommends
        route.len() > 0,
{
    SummaryView {
        first: route.first().system_name,
        last: route.last().system_name,
        distance: route.first().distance_remaining,
        jumps: (route.len() - 1) as nat,
        neutron_stars: neutron_count(route),
        fuel_stops: refuel_count(route),
    }
}

/// The panel that shows the figures of a route, in five lines: a heading,
/// the two ends with the distance between them in thousands of light
/// years to three decimal places, then the three counts.
pub open spec fn summary_text(s: SummaryView) -> Seq<char> {
    "\x1b[37mRoute Summary:"@ + "\n"@ + "  \x1b[37mTrip: \x1b[96m"@ + s.first
        + " \x1b[94m=\x1b[91m"@ + thousands_text(s.distance) + "kly\x1b[94m=> \x1b[96m"@ + s.last
        + "\n"@ + "  \x1b[37mTotal Jumps: \x1b[96m"@ + decimal_text(s.jumps) + "\n"@
        + "  \x1b[37mNeutron Stars: \x1b[96m"@ + decimal_text(s.neutron_stars) + "\x1b[0m"@ + "\n"@
        + "  \x1b[37mFuel Stops: \x1b[96m"@ + decimal_text(s.fuel_stops) + "\x1b[0m"@
}

proof fn lemma_count_step(route: Seq<EntryView>, i: int, pred: spec_fn(EntryView) -> bool)
    requires
        0 <= i < route.len(),
    ensures
        route.take(i + 1).filter(pred).len() == route.take(i).filter(pred).len() + (if pred(
            route[i],
        ) {
            1nat
        } else {
            0nat
        }),
{
    reveal(Seq::filter);
    assert(route.take(i + 1).drop_last() =~= route.take(i));
}

impl RouteSummary {
    /// Appends the panel of these figures to `f`.
    pub fn fmt(&self, f: &mut String)
        ensures
            final(f)@ == old(f)@ + summary_text(self@),
    {
        f.append("\x1b[37mRoute Summary:");
        f.append("\n");
        f.append("  \x1b[37mTrip: \x1b[96m");
        f.append(self.first.as_str());
        f.append(" \x1b[94m=\x1b[91m");
        self.distance.fmt_thousands(f);
        f.append("kly\x1b[94m=> \x1b[96m");
        f.append(self.last.as_str());
        f.append("\n");
        f.append("  \x1b[37mTotal Jumps: \x1b[96m");
        push_decimal(f, self.jumps as u64);
        f.append("\n");
        f.append("  \x1b[37mNeutron Stars: \x1b[96m");
        push_decimal(f, self.neutron_stars as u64);
        f.append("\x1b[0m");
        f.append("\n");
        f.append("  \x1b[37mFuel Stops: \x1b[96m");
        push_decimal(f, self.fuel_stops as u64);
        f.append("\x1b[0m");
    }

    /// The panel of these figures.
    pub fn to_string(&self) -> (s: String)
        ensures
            s@ == summary_text(self@),
    {
        let mut s = String::new();
        self.fmt(&mut s);
        s
    }
}

/// The figures of `records`. A route without systems has none; any other
/// has, and its jumps are one fewer than its systems.
pub fn summarize(records: &[CsvEntry]) -> (figures: Result<RouteSummary, EmptyRouteError>)
    ensures
        figures is Err <==> records@.len() == 0,
        figures matches Ok(s) ==> s@ == summary_of(route_view(records@)),
        figures matches Ok(s) ==> s.jumps == records@.len() - 1,
{
    let n: usize = records.len();
    if n == 0 {
        return Err(EmptyRouteError);
    }
    let ghost route = route_view(records@);
    let mut neutron_stars: usize = 0;
    let mut fuel_stops: usize = 0;
    let mut i: usize = 0;
    while i < n
        invariant
            i <= n,
            n == records@.len(),
            route == route_view(records@),
            neutron_stars == neutron_count(route.take(i as int)),
            fuel_stops == refuel_count(route.take(i as int)),
            neutron_stars <= i,
            fuel_stops <= i,
        decreases n - i,
    {
        proof {
            lemma_count_step(route, i as int, |e: EntryView| e.neutron_star);
            lemma_count_step(route, i as int, |e: EntryView| e.refuel);
        }
        if records[i].neutron_star {
            neutron_stars = neutron_stars + 1;
        }
        if records[i].refuel {
            fuel_stops = fuel_stops + 1;
        }
        i = i + 1;
    }
    assert(route.take(n as int) =~= route);
    Ok(
        RouteSummary {
            first: records[0].system_name.clone(),
            last: records[n - 1].system_name.clone(),
            distance: records[0].distance_remaining,
            jumps: n - 1,
            neutron_stars,
            fuel_stops,
        },
    )
}

/// The summary panel of `records`, or the message that says why there is
/// none.
pub fn summary(records: &[CsvEntry]) -> (panel: Result<String, String>)
    ensures
        records@.len() == 0 ==> panel is Err && panel->Err_0@ == "No Systems in route file"@,
        records@.len() > 0 ==> panel is Ok && panel->Ok_0@ == summary_text(
            summary_of(route_view(records@)),
        ),
{
    match summarize(records) {
        Ok(figures) => Ok(figures.to_string()),
        Err(e) => Err(e.message()),
    }
}

} // verus!
