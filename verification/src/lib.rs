//! Request timing: a start time recorded per request, the elapsed time when
//! the response is ready, and the line that reports it, with the response
//! handed through untouched. Beside it stand a Fibonacci calculator on big
//! integers, the grouping of digits by thousands, and lookups with a default.

pub mod clock;
pub mod fibonacci;
pub mod grouping;
pub mod lookup;
pub mod text;
pub mod timing;

pub use crate::fibonacci::{fib, fib_line, run_fib, FibRun};
pub use crate::grouping::decimal_mark3;
pub use crate::lookup::{get_or_default, get_or_default2};
pub use crate::timing::{after_at, before_at, try_after_at, RequestContext, ResponseTime, Timed};
