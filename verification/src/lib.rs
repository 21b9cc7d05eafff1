//! Stepping through a plotted route of star systems, one jump at a time.
//!
//! A route is a list of waypoints read from a route file. The library
//! says what kind of stop each waypoint is, sums the route up, renders
//! both as text with terminal escape sequences, and keeps the place of
//! the pilot on the route: each advance names the next system for the
//! clipboard and the panel to show.

pub mod color;
pub mod effect;
pub mod entry;
pub mod input;
pub mod numeral;
pub mod payload;
pub mod quantity;
pub mod session;
pub mod summary;

pub use color::TrueColor;
pub use effect::Effect;
pub use entry::{CsvEntry, StarClass};
pub use input::{yesno_bool, InputError};
pub use payload::RenderPayload;
pub use quantity::Quantity;
pub use session::{ListRow, Progress, Session};
pub use summary::{summarize, summary, EmptyRouteError, RouteSummary};
