use vstd::prelude::*;

verus! {

/// Counters of one measurement run, handed to observers by value.
#[derive(Debug, Clone, Copy, PartialEq, Eq, Structural)]
pub struct TargetDownloadInformation {
    pub bytes_downloaded: u64,
    pub total_bytes: u64,
    /// Nanoseconds since the first body request of the run.
    pub time_elapsed: u128,
}

impl TargetDownloadInformation {
    /// The counters before anything was probed or downloaded.
    pub open spec fn zero() -> TargetDownloadInformation {
        TargetDownloadInformation { bytes_downloaded: 0, total_bytes: 0, time_elapsed: 0 }
    }

    /// `self` comes no later than `other` in one run: the same total, and
    /// neither byte count nor elapsed time went down.
    pub open spec fn precedes(self, other: TargetDownloadInformation) -> bool {
        &&& self.total_bytes == other.total_bytes
        &&& self.bytes_downloaded <= other.bytes_downloaded
        &&& self.time_elapsed <= other.time_elapsed
    }
}

impl Default for TargetDownloadInformation {
    fn default() -> (r: TargetDownloadInformation)
        ensures
            r == TargetDownloadInformation::zero(),
    {
        TargetDownloadInformation { bytes_downloaded: 0, total_bytes: 0, time_elapsed: 0 }
    }
}

} // verus!
