use vstd::prelude::*;

verus! {

/// How long a notification stays on screen.
#[derive(Debug, Clone, Copy, PartialEq, Eq, Structural)]
pub enum Timeout {
    /// The notification server decides.
    Default,
    /// The notification never expires.
    Never,
    /// The notification expires after this many milliseconds.
    Milliseconds(i32),
}

/// The timeout that a raw integer stands for: `-1` leaves the choice to the
/// server, `0` never expires, anything else is a count of milliseconds.
pub open spec fn timeout_of_int(n: i32) -> Timeout {
    if n == -1 {
        Timeout::Default
    } else if n == 0 {
        Timeout::Never
    } else {
        Timeout::Milliseconds(n)
    }
}

/// The timeout that a duration of `ms` milliseconds stands for: zero never
/// expires, a count beyond `i32::MAX` falls back to the server's choice.
pub open spec fn timeout_of_millis(ms: nat) -> Timeout {
    if ms == 0 {
        Timeout::Never
    } else if ms <= i32::MAX {
        Timeout::Milliseconds(ms as i32)
    } else {
        Timeout::Default
    }
}

/// A duration, as its number of whole milliseconds
/// (what `std::time::Duration::as_millis` gives).
#[derive(Debug, Clone, Copy, PartialEq, Eq, Structural)]
pub struct Millis(pub u128);

impl Timeout {
    /// Converts a duration, given as its number of whole milliseconds.
    pub fn from_millis(ms: u128) -> (r: Timeout)
        ensures
            r == timeout_of_millis(ms as nat),
    {
        if ms == 0 {
            Timeout::Never
        } else if ms <= i32::MAX as u128 {
            Timeout::Milliseconds(ms as i32)
        } else {
            Timeout::Default
        }
    }
}

impl From<i32> for Timeout {
    fn from(n: i32) -> (r: Timeout) {
        if n == -1 {
            Timeout::Default
        } else if n == 0 {
            Timeout::Never
        } else {
            Timeout::Milliseconds(n)
        }
    }
}

impl From<Millis> for Timeout {
    fn from(d: Millis) -> (r: Timeout) {
        Timeout::from_millis(d.0)
    }
}

impl vstd::std_specs::convert::FromSpecImpl<Millis> for Timeout {
    open spec fn obeys_from_spec() -> bool {
        true
    }

    open spec fn from_spec(d: Millis) -> Timeout {
        timeout_of_millis(d.0 as nat)
    }
}

impl vstd::std_specs::convert::FromSpecImpl<i32> for Timeout {
    open spec fn obeys_from_spec() -> bool {
        true
    }

    open spec fn from_spec(n: i32) -> Timeout {
        timeout_of_int(n)
    }
}

} // verus!
