//! Session identifiers: derived from clock readings in nanoseconds, and
//! never issued twice by one source even where the clock stalls or steps
//! back.

use vstd::prelude::*;

verus! {

/// The identifier issued after `last` for a clock reading: the reading
/// itself where it lies past `last`, else the next number after `last`;
/// `None` where the clock gave no reading or the numbers are used up.
pub open spec fn next_id(last: Option<u64>, nanos: Option<i64>) -> Option<u64> {
    match nanos {
        None => None,
        Some(n) => match last {
            None => Some(n as u64),
            Some(l) => if (n as u64) > l {
                Some(n as u64)
            } else if l < u64::MAX {
                Some((l + 1) as u64)
            } else {
                None
            },
        },
    }
}

/// Issues session identifiers in strictly increasing order.
pub struct SessionIds {
    last: Option<u64>,
}

impl SessionIds {
    pub closed spec fn last_issued(&self) -> Option<u64> {
        self.last
    }

    pub fn new() -> (r: SessionIds)
        ensures
            r.last_issued() is None,
    {
        SessionIds { last: None }
    }

    /// The next identifier for the clock reading `nanos`; every identifier
    /// issued is greater than the one before.
    pub fn issue(&mut self, nanos: Option<i64>) -> (r: Option<u64>)
        ensures
            r == next_id(old(self).last_issued(), nanos),
            r matches Some(id) ==> final(self).last_issued() == Some(id) && (old(
                self,
            ).last_issued() matches Some(l) ==> id > l),
            r is None ==> final(self).last_issued() == old(self).last_issued(),
    {
        let r = match nanos {
            None => None,
            Some(n) => {
                let t = n as u64;
                match self.last {
                    None => Some(t),
                    Some(l) => if t > l {
                        Some(t)
                    } else if l < u64::MAX {
                        Some(l + 1)
                    } else {
                        None
                    },
                }
            },
        };
        if let Some(id) = r {
            self.last = Some(id);
        }
        r
    }
}

} // verus!
