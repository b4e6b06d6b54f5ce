//! UTC timestamps with a precision of one second.

use vstd::prelude::*;

verus! {

/// A point in time, in seconds since the Unix epoch.
#[derive(Clone, Copy, Debug, PartialEq, Eq, Structural)]
pub struct UTCDate {
    pub timestamp: i64,
}

impl View for UTCDate {
    type V = i64;

    open spec fn view(&self) -> i64 {
        self.timestamp
    }
}

/// The timestamp as the wire carries it: the same 64 bits read as an
/// unsigned number.
pub open spec fn timestamp_to_wire(timestamp: i64) -> u64 {
    if timestamp >= 0 {
        timestamp as u64
    } else {
        (timestamp + 0x1_0000_0000_0000_0000) as u64
    }
}

/// The timestamp that the wire number stands for: the same 64 bits read as
/// a signed number.
pub open spec fn timestamp_from_wire(wire: u64) -> i64 {
    if wire <= i64::MAX {
        wire as i64
    } else {
        (wire - 0x1_0000_0000_0000_0000) as i64
    }
}

/// Every timestamp, negative ones included, comes back from its wire form.
pub proof fn lemma_timestamp_round_trip(timestamp: i64)
    ensures
        timestamp_from_wire(timestamp_to_wire(timestamp)) == timestamp,
{
}

/// Every wire number is the wire form of the timestamp it stands for.
pub proof fn lemma_wire_round_trip(wire: u64)
    ensures
        timestamp_to_wire(timestamp_from_wire(wire)) == wire,
{
}

impl UTCDate {
    pub fn from_timestamp(timestamp: i64) -> (r: UTCDate)
        ensures
            r@ == timestamp,
    {
        UTCDate { timestamp }
    }

    pub fn timestamp(&self) -> (r: i64)
        ensures
            r == self@,
    {
        self.timestamp
    }

    /// The timestamp's 64 bits as an unsigned number.
    pub fn to_wire(&self) -> (r: u64)
        ensures
            r == timestamp_to_wire(self@),
    {
        if self.timestamp >= 0 {
            self.timestamp as u64
        } else {
            u64::MAX - ((-(self.timestamp + 1)) as u64)
        }
    }

    /// The date whose timestamp has the 64 bits of `wire`.
    pub fn from_wire(wire: u64) -> (r: UTCDate)
        ensures
            r@ == timestamp_from_wire(wire),
    {
        if wire <= 0x7fff_ffff_ffff_ffff {
            UTCDate { timestamp: wire as i64 }
        } else {
            UTCDate { timestamp: -((u64::MAX - wire) as i64) - 1 }
        }
    }
}

} // verus!
