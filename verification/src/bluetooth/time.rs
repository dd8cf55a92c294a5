//! The moment of a capture.

use vstd::prelude::*;

verus! {

/// The moment of a capture, as the time elapsed since the Unix epoch: whole
/// seconds that fit in 63 bits, and less than a second of nanoseconds.
#[derive(Clone, Copy, Debug, PartialEq, Eq, Hash)]
pub struct CaptureTime {
    secs: u64,
    nanos: u32,
}

/// Whether a count of seconds and of nanoseconds make a capture time.
pub open spec fn is_capture_time(secs: u64, nanos: u32) -> bool {
    secs <= i64::MAX && nanos < 1_000_000_000
}

impl CaptureTime {
    #[verifier::type_invariant]
    spec fn well_formed(self) -> bool {
        is_capture_time(self.secs, self.nanos)
    }

    /// The whole seconds since the epoch.
    pub closed spec fn seconds(self) -> u64 {
        self.secs
    }

    /// The nanoseconds beyond the whole seconds.
    pub closed spec fn subsec_nanos(self) -> u32 {
        self.nanos
    }

    /// The moment that lies `secs` seconds and `nanos` nanoseconds after
    /// the epoch.
    pub closed spec fn at(secs: u64, nanos: u32) -> CaptureTime {
        CaptureTime { secs, nanos }
    }

    /// The epoch itself.
    pub open spec fn epoch() -> CaptureTime {
        CaptureTime::at(0, 0)
    }

    /// The whole milliseconds elapsed since the epoch.
    pub open spec fn millis(self) -> int {
        self.seconds() as int * 1000 + self.subsec_nanos() as int / 1_000_000
    }

    /// A moment is told by its seconds and nanoseconds.
    pub proof fn lemma_at(secs: u64, nanos: u32)
        ensures
            CaptureTime::at(secs, nanos).seconds() == secs,
            CaptureTime::at(secs, nanos).subsec_nanos() == nanos,
    {
    }

    /// Two moments with the same seconds and nanoseconds are one moment.
    pub proof fn lemma_same_moment(self, other: CaptureTime)
        requires
            self.seconds() == other.seconds(),
            self.subsec_nanos() == other.subsec_nanos(),
        ensures
            self == other,
    {
    }

    /// The moment `secs` seconds and `nanos` nanoseconds after the epoch,
    /// where the two make a capture time.
    pub fn new(secs: u64, nanos: u32) -> (time: Option<CaptureTime>)
        ensures
            time is Some <==> is_capture_time(secs, nanos),
            time matches Some(moment) ==> moment == CaptureTime::at(secs, nanos) && moment.seconds()
                == secs && moment.subsec_nanos() == nanos,
    {
        if secs <= 0x7fff_ffff_ffff_ffff && nanos < 1_000_000_000 {
            Some(CaptureTime { secs, nanos })
        } else {
            None
        }
    }

    /// The whole seconds since the epoch.
    pub fn secs(&self) -> (secs: u64)
        ensures
            secs == self.seconds(),
            secs <= i64::MAX,
    {
        proof {
            use_type_invariant(self);
        }
        self.secs
    }

    /// The nanoseconds beyond the whole seconds.
    pub fn nanos(&self) -> (nanos: u32)
        ensures
            nanos == self.subsec_nanos(),
            nanos < 1_000_000_000,
    {
        proof {
            use_type_invariant(self);
        }
        self.nanos
    }
}

impl Default for CaptureTime {
    /// The epoch.
    fn default() -> (time: CaptureTime)
        ensures
            time == CaptureTime::epoch(),
    {
        CaptureTime { secs: 0, nanos: 0 }
    }
}

} // verus!
