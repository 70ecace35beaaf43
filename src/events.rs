use crate::snapshot::TargetDownloadInformation;
use vstd::prelude::*;

verus! {

/// An observer of measurement runs. Each method receives a copy of the
/// counters at the moment of the event.
pub trait SpeedTestEvents {
    /// All targets were probed: the total is known and nothing was read yet.
    fn on_download(&mut self, target_download_information: &TargetDownloadInformation);

    /// A chunk of some target's body arrived.
    fn on_downloading(&mut self, target_download_information: &TargetDownloadInformation);

    /// Every target was read to its end.
    fn on_downloaded(&mut self, target_download_information: &TargetDownloadInformation);
}

/// One notification that a run hands to every observer.
#[derive(Debug, Clone, Copy, PartialEq, Eq, Structural)]
pub enum Notice {
    Download(TargetDownloadInformation),
    Downloading(TargetDownloadInformation),
    Downloaded(TargetDownloadInformation),
}

impl Notice {
    /// The counters that the notification carries.
    pub open spec fn info(self) -> TargetDownloadInformation {
        match self {
            Notice::Download(i) => i,
            Notice::Downloading(i) => i,
            Notice::Downloaded(i) => i,
        }
    }

    /// Calls the observer method that matches this notification.
    pub fn deliver<H: SpeedTestEvents + ?Sized>(&self, hook: &mut H) {
        match self {
            Notice::Download(i) => hook.on_download(i),
            Notice::Downloading(i) => hook.on_downloading(i),
            Notice::Downloaded(i) => hook.on_downloaded(i),
        }
    }
}

} // verus!
