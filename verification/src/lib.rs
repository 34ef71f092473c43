//! Cross-platform timing: instants, clocks scaled to reference time, calibration of a cycle
//! counter against a reference clock, a mockable clock source, and the decisions behind the
//! "recent time" upkeep thread.

use vstd::prelude::*;

pub mod calibration;
pub mod clock;
pub mod duration;
pub mod instant;
pub mod mock;
pub mod order;
pub mod tsc;
pub mod upkeep;

pub use calibration::Calibration;
pub use clock::{Clock, Counter, Monotonic, SourceKind};
pub use instant::Instant;
pub use mock::{IntoNanoseconds, Mock};
pub use upkeep::{Error, Upkeep};

verus! {

} // verus!
