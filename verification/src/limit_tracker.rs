//! Keeps a value against its allowed maximum and warns as the value comes close.
//!
//! The warning depends on the exact ratio of value to maximum: from three quarters on
//! a warning, from nine tenths on an urgent warning, from the whole on an error.

use vstd::prelude::*;

verus! {

/// Something that can take a message.
pub trait Messenger {
    fn send(&self, msg: &str);
}

/// How close a value is to its maximum.
#[derive(Clone, Copy, Debug, PartialEq, Eq, Structural)]
pub enum Usage {
    /// Under three quarters of the maximum.
    Fine,
    /// At least three quarters, under nine tenths.
    Warning,
    /// At least nine tenths, under the whole.
    Urgent,
    /// The whole maximum or more.
    Over,
}

/// The usage that `value` makes of `max`. Against a maximum of zero every value but
/// zero is over, and zero is fine.
pub open spec fn usage_of(value: nat, max: nat) -> Usage {
    if max == 0 {
        if value > 0 {
            Usage::Over
        } else {
            Usage::Fine
        }
    } else if value >= max {
        Usage::Over
    } else if 10 * value >= 9 * max {
        Usage::Urgent
    } else if 4 * value >= 3 * max {
        Usage::Warning
    } else {
        Usage::Fine
    }
}

/// The text that goes with a usage, where one does.
pub open spec fn message_for(usage: Usage) -> Option<Seq<char>> {
    match usage {
        Usage::Fine => None,
        Usage::Warning => Some("Warning: You've used up over 75% of your quota!"@),
        Usage::Urgent => Some("Urgent warning: You've used up over 90% of your quota!"@),
        Usage::Over => Some("Error: You are over your quota!"@),
    }
}

impl Usage {
    /// Works out the usage that `value` makes of `max`.
    pub fn of(value: usize, max: usize) -> (usage: Usage)
        ensures
            usage == usage_of(value as nat, max as nat),
    {
        let value = value as u128;
        let max = max as u128;
        if max == 0 {
            if value > 0 {
                Usage::Over
            } else {
                Usage::Fine
            }
        } else if value >= max {
            Usage::Over
        } else if 10 * value >= 9 * max {
            Usage::Urgent
        } else if 4 * value >= 3 * max {
            Usage::Warning
        } else {
            Usage::Fine
        }
    }

    /// The message to send for this usage, if it calls for one.
    pub fn message(self) -> (text: Option<&'static str>)
        ensures
            text is Some <==> message_for(self) is Some,
            text matches Some(t) ==> Some(t@) == message_for(self),
    {
        match self {
            Usage::Fine => None,
            Usage::Warning => Some("Warning: You've used up over 75% of your quota!"),
            Usage::Urgent => Some("Urgent warning: You've used up over 90% of your quota!"),
            Usage::Over => Some("Error: You are over your quota!"),
        }
    }
}

/// A value, its maximum, and the messenger that hears of it when the value runs high.
pub struct LimitTracker<'a, T: Messenger> {
    messenger: &'a T,
    value: usize,
    max: usize,
}

impl<'a, T: Messenger> LimitTracker<'a, T> {
    /// The value last set.
    pub closed spec fn value(&self) -> usize {
        self.value
    }

    /// The maximum that the value is held against.
    pub closed spec fn max(&self) -> usize {
        self.max
    }

    /// The messenger that warnings go to.
    pub closed spec fn messenger(&self) -> &'a T {
        self.messenger
    }

    /// A tracker with the value zero.
    pub fn new(messenger: &'a T, max: usize) -> (tracker: LimitTracker<'a, T>)
        ensures
            tracker.value() == 0,
            tracker.max() == max,
            tracker.messenger() == messenger,
    {
        LimitTracker { messenger, value: 0, max }
    }

    /// Sets the value, and sends the messenger the one message that goes with the
    /// usage `Usage::of(value, max)`, if that usage has a message.
    pub fn set_value(&mut self, value: usize)
        ensures
            final(self).value() == value,
            final(self).max() == old(self).max(),
            final(self).messenger() == old(self).messenger(),
    {
        self.value = value;
        match Usage::of(self.value, self.max).message() {
            Some(text) => self.messenger.send(text),
            None => {},
        }
    }

    /// How close the value is to the maximum.
    pub fn usage(&self) -> (usage: Usage)
        ensures
            usage == usage_of(self.value() as nat, self.max() as nat),
    {
        Usage::of(self.value, self.max)
    }
}

/// More value never means less alarm: against the same maximum, a value at least as
/// large has a usage at least as high.
pub proof fn law_usage_rises_with_value(low: nat, high: nat, max: nat)
    requires
        low <= high,
    ensures
        usage_rank(usage_of(low, max)) <= usage_rank(usage_of(high, max)),
{
}

/// The order of the usages, from fine to over.
pub open spec fn usage_rank(usage: Usage) -> nat {
    match usage {
        Usage::Fine => 0,
        Usage::Warning => 1,
        Usage::Urgent => 2,
        Usage::Over => 3,
    }
}

} // verus!
