//! Spans of time and how they are shown.

use crate::text::{decimal, decimal_text};
use vstd::prelude::*;

verus! {

/// Nanoseconds in a second.
pub const NANOS_PER_SEC: u32 = 1_000_000_000;

/// A span of time. Its view is its length in nanoseconds.
#[derive(Clone, Copy, Debug, PartialEq, Eq)]
pub struct Duration {
    secs: u64,
    nanos: u32,
}

impl View for Duration {
    type V = nat;

    closed spec fn view(&self) -> nat {
        self.secs as nat * NANOS_PER_SEC as nat + self.nanos as nat
    }
}

impl Duration {
    #[verifier::type_invariant]
    spec fn below_one_second(self) -> bool {
        self.nanos < NANOS_PER_SEC
    }

    /// The whole seconds in this span.
    pub open spec fn seconds(&self) -> nat {
        self@ / NANOS_PER_SEC as nat
    }

    /// The span of so many seconds and nanoseconds.
    pub fn new(secs: u64, nanos: u32) -> (d: Duration)
        requires
            nanos < NANOS_PER_SEC,
        ensures
            d@ == secs * NANOS_PER_SEC + nanos,
            d.seconds() == secs,
    {
        Duration { secs, nanos }
    }

    /// The whole seconds in this span.
    pub fn as_secs(&self) -> (secs: u64)
        ensures
            secs == self.seconds(),
    {
        proof {
            use_type_invariant(self);
        }
        self.secs
    }

    /// Whether this span is shorter than another.
    pub fn shorter_than(&self, other: &Duration) -> (shorter: bool)
        ensures
            shorter == (self@ < other@),
    {
        proof {
            use_type_invariant(self);
            use_type_invariant(other);
        }
        self.secs < other.secs || (self.secs == other.secs && self.nanos < other.nanos)
    }

    /// What is left of this span when another is taken from it.
    pub fn minus(&self, other: &Duration) -> (left: Duration)
        requires
            other@ <= self@,
        ensures
            left@ == self@ - other@,
    {
        proof {
            use_type_invariant(self);
            use_type_invariant(other);
        }
        if self.nanos >= other.nanos {
            Duration { secs: self.secs - other.secs, nanos: self.nanos - other.nanos }
        } else {
            Duration {
                secs: self.secs - other.secs - 1,
                nanos: self.nanos + NANOS_PER_SEC - other.nanos,
            }
        }
    }
}

/// The hours shown for so many seconds: as many as leave at least one second.
pub open spec fn hours_shown(secs: nat) -> nat {
    if secs == 0 {
        0
    } else {
        ((secs - 1) / 3600) as nat
    }
}

/// The minutes shown for so many seconds: as many as the hours leave room for
/// and leave at least one second.
pub open spec fn minutes_shown(secs: nat) -> nat {
    if secs == 0 {
        0
    } else {
        ((secs - 1) % 3600 / 60) as nat
    }
}

/// The seconds shown: what hours and minutes leave, from one to sixty.
pub open spec fn seconds_shown(secs: nat) -> nat {
    if secs == 0 {
        0
    } else {
        ((secs - 1) % 60 + 1) as nat
    }
}

/// The text shown for so many seconds, such as `0h3m20s`.
pub open spec fn shown(secs: nat) -> Seq<char> {
    decimal(hours_shown(secs)) + "h"@ + decimal(minutes_shown(secs)) + "m"@ + decimal(
        seconds_shown(secs),
    ) + "s"@
}

/// Whether a span can be shown: the hours are counted in 32 bits with a sign.
pub open spec fn showable(secs: nat) -> bool {
    hours_shown(secs) <= i32::MAX
}

/// Tells whether a span can be shown.
pub fn can_show(d: &Duration) -> (can: bool)
    ensures
        can == showable(d.seconds()),
{
    d.as_secs() <= 7_730_941_132_800
}

/// The parts shown are the only ones in their ranges that add up to the seconds.
pub proof fn parts_are_unique(secs: nat, h: int, m: int, s: int)
    requires
        secs == h * 3600 + m * 60 + s,
        0 <= h,
        0 <= m < 60,
        secs == 0 ==> s == 0,
        secs > 0 ==> 1 <= s <= 60,
    ensures
        h == hours_shown(secs),
        m == minutes_shown(secs),
        s == seconds_shown(secs),
{
    if secs > 0 {
        assert(secs - 1 == h * 3600 + (m * 60 + (s - 1)));
        assert((secs - 1) % 3600 == m * 60 + (s - 1));
        assert((secs - 1) % 60 == s - 1);
    }
}

/// Shows a span of time in hours, minutes and seconds.
pub fn format_duration(d: &Duration) -> (text: String)
    requires
        showable(d.seconds()),
    ensures
        text@ == shown(d.seconds()),
{
    let mut s: u64 = d.as_secs();
    let ghost secs: nat = s as nat;
    let mut h: i32 = 0;
    let mut m: i32 = 0;
    while s > 60 * 60
        invariant
            secs == h * 3600 + s,
            secs > 0 ==> s > 0,
            0 <= h <= hours_shown(secs) <= i32::MAX,
        decreases s,
    {
        h += 1;
        s -= 60 * 60;
    }
    while s > 60
        invariant
            secs == h * 3600 + m * 60 + s,
            secs > 0 ==> s > 0,
            m * 60 + s <= 3600,
            0 <= m < 60,
            0 <= h,
        decreases s,
    {
        m += 1;
        s -= 60;
    }
    proof {
        parts_are_unique(secs, h as int, m as int, s as int);
    }
    let mut text = decimal_text(h as u64);
    text.append("h");
    text.append(decimal_text(m as u64).as_str());
    text.append("m");
    text.append(decimal_text(s).as_str());
    text.append("s");
    text
}

} // verus!
