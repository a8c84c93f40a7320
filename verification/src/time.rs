use vstd::prelude::*;

verus! {

/// An instant on the UTC time line: whole seconds since the Unix epoch and the
/// nanoseconds that follow them. Instants are ordered by their seconds first
/// and by their nanoseconds second, which also orders a leap second (whose
/// nanoseconds run past one second) after the second it extends.
#[derive(Clone, Copy, Debug, PartialEq, Eq, Structural)]
pub struct Timestamp {
    pub secs: i64,
    pub nanos: u32,
}

impl Timestamp {
    /// `self` is `other` or comes before it.
    pub open spec fn le(&self, other: &Timestamp) -> bool {
        self.secs < other.secs || (self.secs == other.secs && self.nanos <= other.nanos)
    }

    /// The instant as a number of nanoseconds since the epoch.
    pub open spec fn nanoseconds(&self) -> int {
        self.secs as int * 1_000_000_000 + self.nanos as int
    }

    /// Whether a number of nanoseconds since the epoch is an instant whose
    /// whole seconds fit the type.
    pub open spec fn representable(total: int) -> bool {
        i64::MIN <= total / 1_000_000_000 <= i64::MAX
    }

    /// The instant that lies `total` nanoseconds after the epoch, if its
    /// whole seconds fit the type. Its nanoseconds stay below one second.
    pub fn from_nanoseconds(total: i128) -> (r: Option<Timestamp>)
        ensures
            match r {
                Some(t) => Timestamp::representable(total as int) && t.nanoseconds() == total
                    && t.nanos < 1_000_000_000,
                None => !Timestamp::representable(total as int),
            },
    {
        let billion: i128 = 1_000_000_000;
        let (secs, nanos): (i128, i128) = if total >= 0 {
            (total / billion, total % billion)
        } else if total == i128::MIN {
            return None;
        } else {
            let back: i128 = -total;
            let whole: i128 = back / billion;
            let part: i128 = back % billion;
            if part == 0 {
                (-whole, 0)
            } else {
                (-whole - 1, billion - part)
            }
        };
        assert(secs * 1_000_000_000 + nanos == total && 0 <= nanos < 1_000_000_000);
        assert(secs == total as int / 1_000_000_000);
        if secs < -9_223_372_036_854_775_808 || secs > 9_223_372_036_854_775_807 {
            None
        } else {
            Some(Timestamp { secs: secs as i64, nanos: nanos as u32 })
        }
    }

    /// The instant that lies `secs` whole seconds after the epoch.
    pub fn from_secs(secs: i64) -> (t: Timestamp)
        ensures
            t == (Timestamp { secs, nanos: 0 }),
    {
        Timestamp { secs, nanos: 0 }
    }

    /// Whether this instant is the other one or comes after it.
    pub fn at_or_after(&self, other: &Timestamp) -> (r: bool)
        ensures
            r == other.le(self),
    {
        other.secs < self.secs || (other.secs == self.secs && other.nanos <= self.nanos)
    }

    /// Whether this instant is the other one or comes before it.
    pub fn at_or_before(&self, other: &Timestamp) -> (r: bool)
        ensures
            r == self.le(other),
    {
        self.secs < other.secs || (self.secs == other.secs && self.nanos <= other.nanos)
    }
}

/// The order of instants is total: of two instants one is at or before the
/// other.
pub proof fn lemma_order_total(a: Timestamp, b: Timestamp)
    ensures
        a.le(&b) || b.le(&a),
        a.le(&b) && b.le(&a) ==> a == b,
{
}

} // verus!
