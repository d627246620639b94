//! State engine of a terminal dashboard that tracks the International Space
//! Station.
//!
//! - [`iss`]: the telemetry model, with the orbital phase of [`orbit`] and the
//!   trajectory history of [`history`];
//! - [`screen`]: the navigation between the screens, and what each shows;
//! - [`scheduler`]: the loop that waits for input and refreshes the telemetry;
//! - [`weather`]: the table from weather codes to descriptions and pictographs;
//! - [`feed`]: what is read out of the answers of the services, with the
//!   number readers of [`fixed`] and [`decimal`].
//!
//! Every quantity is held in fixed point, in the millionths of [`units`], so
//! the whole engine is integer arithmetic with machine-checked contracts.

pub mod decimal;
pub mod feed;
pub mod fixed;
pub mod history;
pub mod iss;
pub mod orbit;
pub mod scheduler;
pub mod screen;
pub mod units;
pub mod weather;

pub use iss::Iss;
pub use screen::App;
pub use screen::CurrentScreen;
pub use units::Micros;
