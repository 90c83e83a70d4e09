use vstd::prelude::*;

verus! {

/// A failure of the native engine, reported by it through a negative status.
///
/// The engine gives no finer account of what went wrong, so neither does this.
#[derive(Debug, Clone, Copy, PartialEq, Eq, Structural)]
pub struct Error;

/// The outcome of an engine call: a negative status is a failure.
pub open spec fn failed(status: i32) -> bool {
    status < 0
}

} // verus!
