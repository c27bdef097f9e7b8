//! What the host-facing kernel remembers between calls, and the decisions
//! taken around each call into the filesystem layer: whether a session may
//! proceed, whether the phone was swapped under us, and how a failed storage
//! listing is reported. The calls themselves (opening the device, fetching
//! its description, listing storages, disposing it) are made by the caller,
//! which hands each outcome back here.
use vstd::prelude::*;
use vstd::string::StringExecFns;
use crate::datasets::DeviceInfo;
use crate::strings::{contains_seq, str_contains, str_eq};
use super::errors::{KernelError, rendered};

verus! {

/// The kernel's memory: whether a device is open, and the description
/// fetched from it last (kept to detect a swapped phone).
pub struct DeviceState {
    pub has_device: bool,
    pub device_info: Option<DeviceInfo>,
}

/// Whether `e` is a fabricated error carrying exactly `text`.
pub open spec fn is_message(e: KernelError, text: Seq<char>) -> bool {
    e matches KernelError::Message(m) && m@ == text
}

/// What to do before an operation runs.
pub enum VerifyStep {
    /// Run the operation.
    Proceed,
    /// Fetch the device description again and hand it to
    /// [`verify_mtp_session_finish`] before running the operation.
    FetchDeviceInfo,
    /// Report this error instead.
    Fail(KernelError),
}

impl DeviceState {
    /// No device open, nothing remembered.
    pub fn new() -> (st: DeviceState)
        ensures
            !st.has_device,
            st.device_info is None,
    {
        DeviceState { has_device: false, device_info: None }
    }
}

fn detect_failed() -> (e: KernelError)
    ensures
        is_message(e, "ErrorMtpDetectFailed"@),
{
    let e = KernelError::Message("ErrorMtpDetectFailed".to_owned());
    proof {
        reveal_strlit("ErrorMtpDetectFailed");
    }
    e
}

/// The first half of session verification: without a device nothing can run;
/// the swap check runs only when it is not skipped and a description is on
/// record to compare with.
pub fn verify_mtp_session_start(st: &DeviceState, skip_device_change_check: bool) -> (r: VerifyStep)
    ensures
        !st.has_device ==> (r matches VerifyStep::Fail(e) && is_message(e, "ErrorMtpDetectFailed"@)),
        st.has_device && (skip_device_change_check || st.device_info is None) ==> r is Proceed,
        st.has_device && !skip_device_change_check && st.device_info is Some ==> r is FetchDeviceInfo,
{
    if !st.has_device {
        return VerifyStep::Fail(detect_failed());
    }
    if skip_device_change_check || st.device_info.is_none() {
        return VerifyStep::Proceed;
    }
    VerifyStep::FetchDeviceInfo
}

/// Whether the freshly fetched description names another phone than the one
/// on record.
pub open spec fn device_changed(stored: Option<DeviceInfo>, fresh: DeviceInfo) -> bool {
    stored matches Some(s) && s.serial_number@ != fresh.serial_number@
}

/// A phone counts as swapped exactly when its whole serial number differs
/// from the one on record; with nothing on record no swap is seen.
pub proof fn lemma_swap_is_serial_mismatch(stored: DeviceInfo, fresh: DeviceInfo)
    ensures
        device_changed(Some(stored), fresh) <==> stored.serial_number@ != fresh.serial_number@,
        !device_changed(None, fresh),
        stored.serial_number@ == fresh.serial_number@ ==> !device_changed(Some(stored), fresh),
{
}

/// The second half of session verification, given what the re-fetch gave:
/// a different serial number is reported as a changed device (and the new
/// description kept); a failed fetch forgets the description, closes the
/// device and reports the failure; otherwise the operation may run.
pub fn verify_mtp_session_finish(st: &mut DeviceState, fetched: Result<DeviceInfo, KernelError>) -> (r: Result<
    (),
    KernelError,
>)
    ensures
        match fetched {
            Ok(d) => if device_changed(old(st).device_info, d) {
                &&& final(st).has_device == old(st).has_device
                &&& final(st).device_info == Some(d)
                &&& r matches Err(e) && is_message(e, "ErrorDeviceChanged"@)
            } else {
                &&& final(st).has_device == old(st).has_device
                &&& final(st).device_info == old(st).device_info
                &&& r is Ok
            },
            Err(e) => {
                &&& !final(st).has_device
                &&& final(st).device_info is None
                &&& r == Err::<(), KernelError>(e)
            },
        },
        match (fetched, old(st).device_info) {
            (Ok(d), Some(s)) => (r is Err <==> s.serial_number@ != d.serial_number@),
            (Ok(_), None) => r is Ok,
            _ => true,
        },
{
    match fetched {
        Ok(d) => {
            let changed = match &st.device_info {
                Some(stored) => !str_eq(stored.serial_number.as_str(), d.serial_number.as_str()),
                None => false,
            };
            if changed {
                st.device_info = Some(d);
                let e = KernelError::Message("ErrorDeviceChanged".to_owned());
                proof {
                    reveal_strlit("ErrorDeviceChanged");
                }
                Err(e)
            } else {
                Ok(())
            }
        },
        Err(e) => {
            st.device_info = None;
            st.has_device = false;
            Err(e)
        },
    }
}

/// Record the outcome of fetching the device description: kept on success,
/// forgotten (without closing the device) on failure.
pub fn fetch_device_info_finish(st: &mut DeviceState, fetched: Result<DeviceInfo, KernelError>) -> (r: Result<
    (),
    KernelError,
>)
    ensures
        final(st).has_device == old(st).has_device,
        match fetched {
            Ok(d) => final(st).device_info == Some(d) && r is Ok,
            Err(e) => final(st).device_info is None && r == Err::<(), KernelError>(e),
        },
{
    match fetched {
        Ok(d) => {
            st.device_info = Some(d);
            Ok(())
        },
        Err(e) => {
            st.device_info = None;
            Err(e)
        },
    }
}

/// How a failed storage listing is reported: when a device and its
/// description are on record and the failure's text mentions `EOF` (the
/// phone refusing storage access), the device is closed and the failure
/// becomes the allow-storage-access message; otherwise it is reported as is.
pub fn fetch_storages_failure(st: &mut DeviceState, err: KernelError) -> (r: KernelError)
    ensures
        final(st).device_info == old(st).device_info,
        if old(st).has_device && old(st).device_info is Some && contains_seq(rendered(err), "EOF"@) {
            &&& !final(st).has_device
            &&& is_message(r, "error allow storage access. "@ + rendered(err))
        } else {
            final(st).has_device == old(st).has_device && r == err
        },
{
    let text = match &err {
        KernelError::Vfs(_, m) => m.clone(),
        KernelError::Message(m) => m.clone(),
    };
    if st.has_device && st.device_info.is_some() && str_contains(text.as_str(), "EOF") {
        st.has_device = false;
        KernelError::Message(super::errors::allow_storage_access_sentinel(text.as_str()))
    } else {
        err
    }
}

/// The Dispose operation: close the device and forget its description.
pub fn dispose_export(st: &mut DeviceState)
    ensures
        !final(st).has_device,
        final(st).device_info is None,
{
    st.has_device = false;
    st.device_info = None;
}

} // verus!
