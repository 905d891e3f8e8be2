use vstd::prelude::*;

pub mod counter;
pub mod diamond;
pub mod opt;
pub mod report;
pub mod rose;
pub mod text;

pub use counter::{BoolBoxImpl, CounterImpl, NaiveCounterImpl};
pub use diamond::{BarImpl, BazImpl, FooImpl, QuxImpl};
pub use opt::{Opt, Role};
pub use rose::{CircleImpl, Color, RectangleImpl, RoseImpl, Shape};

verus! {

/// Seconds a caller pauses between two round trips.
pub const SHORT_SLEEP_SECS: u64 = 0;

} // verus!
