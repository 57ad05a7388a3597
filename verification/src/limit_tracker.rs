//! Tracks a value against a maximum and has a messenger warn of how near
//! the value has come.

use vstd::prelude::*;

verus! {

/// Whoever delivers the warnings: by mail, by text message, or into a list.
pub trait Messenger {
    fn send(&self, msg: &str);
}

/// How near a value has come to its maximum.
#[derive(Clone, Copy, Debug, PartialEq, Eq, Structural)]
pub enum Usage {
    /// Less than three quarters of the maximum.
    Fine,
    /// At least three quarters and less than nine tenths.
    Warning,
    /// At least nine tenths and less than the whole.
    Urgent,
    /// The whole maximum or more.
    Over,
}

/// How near `value` has come to `max`. Nothing used of a maximum of nothing
/// is fine; anything used of it is over.
pub open spec fn usage(value: int, max: int) -> Usage {
    if value == 0 && max == 0 {
        Usage::Fine
    } else if value >= max {
        Usage::Over
    } else if 10 * value >= 9 * max {
        Usage::Urgent
    } else if 4 * value >= 3 * max {
        Usage::Warning
    } else {
        Usage::Fine
    }
}

/// The message that goes out at each level, if any does.
pub open spec fn message(level: Usage) -> Option<Seq<char>> {
    match level {
        Usage::Fine => None,
        Usage::Warning => Some("Warning: You've used up over 75% of your quota!"@),
        Usage::Urgent => Some("Urgent warning: You've used up over 90% of your quota!"@),
        Usage::Over => Some("Error: You are over your quota!"@),
    }
}

/// Decides what is to be said, if anything, when `value` of `max` is used.
pub fn quota_message(value: usize, max: usize) -> (msg: Option<&'static str>)
    ensures
        msg is Some == message(usage(value as int, max as int)) is Some,
        msg is Some ==> msg->Some_0@ == message(usage(value as int, max as int))->Some_0,
{
    let used: u128 = value as u128;
    let limit: u128 = max as u128;
    if value == 0 && max == 0 {
        None
    } else if used >= limit {
        Some("Error: You are over your quota!")
    } else if 10 * used >= 9 * limit {
        Some("Urgent warning: You've used up over 90% of your quota!")
    } else if 4 * used >= 3 * limit {
        Some("Warning: You've used up over 75% of your quota!")
    } else {
        None
    }
}

/// A value, its maximum, and the messenger that hears of it.
pub struct LimitTracker<'a, T: Messenger> {
    messenger: &'a T,
    value: usize,
    max: usize,
}

impl<'a, T: Messenger> LimitTracker<'a, T> {
    /// The value that was set last.
    pub closed spec fn value(&self) -> nat {
        self.value as nat
    }

    /// The maximum, which never changes.
    pub closed spec fn max(&self) -> nat {
        self.max as nat
    }

    /// The messenger, which never changes.
    pub closed spec fn messenger(&self) -> &'a T {
        self.messenger
    }

    /// A tracker with the maximum `max` and nothing used yet.
    pub fn new(messenger: &'a T, max: usize) -> (tracker: LimitTracker<'a, T>)
        ensures
            tracker.value() == 0,
            tracker.max() == max,
            tracker.messenger() == messenger,
    {
        LimitTracker { messenger, value: 0, max }
    }

    /// Sets the value, and sends the messenger what `quota_message` has to
    /// say of it: one message at most.
    pub fn set_value(&mut self, value: usize)
        ensures
            final(self).value() == value,
            final(self).max() == old(self).max(),
            final(self).messenger() == old(self).messenger(),
    {
        self.value = value;
        match quota_message(self.value, self.max) {
            Some(msg) => {
                self.messenger.send(msg);
            },
            None => {},
        }
    }
}

} // verus!
