//! The latest-value slot behind the transfer progress sampler. The transfer
//! overwrites one slot shared by preprocess and progress events; a poller
//! re-sends whatever the slot holds on every tick until it is stopped; on
//! success the poller is stopped first and the latest progress snapshot is
//! delivered once more, so a transfer shorter than one tick still reports
//! its final counters before the done callback. The poller's thread and
//! timer belong to the caller.
use vstd::prelude::*;
use super::json::{
    download_preprocess_json, transfer_preprocess_data_json, upload_preprocess_json, TransferPreprocessDataView,
};
use super::json_text::envelope_ok;

verus! {

/// One event written into the slot.
pub enum Sample<P> {
    UploadPreprocess { full_path: String, name: String, size: i64 },
    DownloadPreprocess { full_path: String, name: String, size: i64 },
    Progress(P),
}

/// The slot and whether the poller has been stopped.
pub struct SampleSlot<P> {
    latest: Option<Sample<P>>,
    stopped: bool,
}

impl<P> SampleSlot<P> {
    /// The event the slot holds.
    pub closed spec fn latest(&self) -> Option<Sample<P>> {
        self.latest
    }

    /// Whether the poller was stopped.
    pub closed spec fn is_stopped(&self) -> bool {
        self.stopped
    }

    /// Whether the poller was stopped.
    pub fn has_stopped(&self) -> (b: bool)
        ensures
            b == self.is_stopped(),
    {
        self.stopped
    }

    /// An empty slot with a running poller.
    pub fn new() -> (s: Self)
        ensures
            s.latest() is None,
            !s.is_stopped(),
    {
        SampleSlot { latest: None, stopped: false }
    }

    /// Overwrite the slot with the newest event.
    pub fn set(&mut self, sample: Sample<P>)
        ensures
            final(self).latest() == Some(sample),
            final(self).is_stopped() == old(self).is_stopped(),
    {
        self.latest = Some(sample);
    }

    /// What one tick of the poller sends: the slot's event, again and again,
    /// until the poller is stopped.
    pub fn tick(&self) -> (r: Option<&Sample<P>>)
        ensures
            self.is_stopped() ==> r is None,
            !self.is_stopped() ==> match self.latest() {
                Some(s) => r == Some(&s),
                None => r is None,
            },
    {
        if self.stopped {
            None
        } else {
            match &self.latest {
                Some(s) => Some(s),
                None => None,
            }
        }
    }

    /// Stop the poller; then the latest progress snapshot, if the slot holds
    /// one, is delivered once more.
    pub fn stop_and_take_latest(&mut self) -> (r: Option<&P>)
        ensures
            final(self).is_stopped(),
            match old(self).latest() {
                Some(Sample::Progress(p)) => r == Some(&p),
                _ => r is None,
            },
    {
        self.stopped = true;
        match &self.latest {
            Some(Sample::Progress(p)) => Some(p),
            _ => None,
        }
    }

    /// Stop the poller (the error path, where no snapshot is re-sent).
    pub fn stop(&mut self)
        ensures
            final(self).is_stopped(),
            final(self).latest() == old(self).latest(),
    {
        self.stopped = true;
    }
}

/// The preprocess payload of a preprocess event; `None` for progress,
/// which the caller renders.
pub fn preprocess_payload<P>(s: &Sample<P>) -> (r: Option<String>)
    ensures
        match s {
            Sample::UploadPreprocess { full_path, name, size } => r matches Some(t) && t@ == envelope_ok(
                transfer_preprocess_data_json(TransferPreprocessDataView { full_path: full_path@, name: name@, size: *size }),
            ),
            Sample::DownloadPreprocess { full_path, name, size } => r matches Some(t) && t@ == envelope_ok(
                transfer_preprocess_data_json(TransferPreprocessDataView { full_path: full_path@, name: name@, size: *size }),
            ),
            Sample::Progress(_) => r is None,
        },
{
    match s {
        Sample::UploadPreprocess { full_path, name, size } => Some(
            upload_preprocess_json(full_path.as_str(), name.as_str(), *size),
        ),
        Sample::DownloadPreprocess { full_path, name, size } => Some(
            download_preprocess_json(full_path.as_str(), name.as_str(), *size),
        ),
        Sample::Progress(_) => None,
    }
}

} // verus!
