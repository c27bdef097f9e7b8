//! Classifying an error into the host's `(errorType, message)` pair. The
//! order is fixed: cancellation first; then the error's variant; then, when
//! no variant matched, the fabricated sentinel strings; then substring
//! overrides in a fixed precedence.
use vstd::prelude::*;
use vstd::string::StringExecFns;
use crate::strings::{contains_seq, str_contains, str_eq};
use super::error_type;

verus! {

/// What the classifier reads of a filesystem-layer error: its variant, and
/// for a bare engine error the response code it carries, if any.
#[derive(Clone, Debug, PartialEq, Eq)]
pub enum VfsErrorKind {
    Cancelled,
    /// A bare engine error passed through; `Some(code)` for a response-code
    /// error.
    Mtp(Option<u16>),
    MtpDetectFailed,
    Configure,
    DeviceInfo,
    StorageInfo,
    NoStorage,
    ListDirectory,
    FileNotFound,
    FilePermission,
    LocalFile,
    InvalidPath,
    FileTransfer,
    FileObject,
    SendObject,
    /// Another process holds the device; the competing app, if known.
    ExclusiveAccess(Option<String>),
}

/// The single error value every host-facing operation reports: a typed
/// filesystem-layer error with the message it renders to, or a fabricated
/// message.
#[derive(Clone, Debug, PartialEq, Eq)]
pub enum KernelError {
    Vfs(VfsErrorKind, String),
    Message(String),
}

/// The message an error renders to.
pub open spec fn rendered(e: KernelError) -> Seq<char> {
    match e {
        KernelError::Vfs(_, m) => m@,
        KernelError::Message(m) => m@,
    }
}

/// The message for an exclusive-access error, naming the competing app.
pub open spec fn exclusive_access_text(owner: Option<Seq<char>>) -> Seq<char> {
    match owner {
        Some(o) => o + " is using the phone. Quit it and reconnect."@,
        None => "Another app is using the phone. Quit it and reconnect."@,
    }
}

/// The type and message the error's variant gives; both empty when the
/// variant decides nothing.
pub open spec fn typed_class(k: VfsErrorKind, msg: Seq<char>) -> (Seq<char>, Seq<char>) {
    match k {
        VfsErrorKind::Mtp(Some(code)) if code == 0x2009 => ("ErrorStorageFull"@, msg),
        VfsErrorKind::Mtp(_) => (Seq::empty(), Seq::empty()),
        VfsErrorKind::Cancelled => (Seq::empty(), Seq::empty()),
        VfsErrorKind::MtpDetectFailed => ("ErrorMtpDetectFailed"@, msg),
        VfsErrorKind::Configure => ("ErrorDeviceSetup"@, msg),
        VfsErrorKind::DeviceInfo => ("ErrorDeviceInfo"@, msg),
        VfsErrorKind::StorageInfo => ("ErrorStorageInfo"@, msg),
        VfsErrorKind::NoStorage => ("ErrorNoStorage"@, msg),
        VfsErrorKind::ListDirectory => ("ErrorListDirectory"@, msg),
        VfsErrorKind::FileNotFound => ("ErrorFileNotFound"@, msg),
        VfsErrorKind::FilePermission => ("ErrorFilePermission"@, msg),
        VfsErrorKind::LocalFile => ("ErrorLocalFileRead"@, msg),
        VfsErrorKind::InvalidPath => ("ErrorInvalidPath"@, msg),
        VfsErrorKind::FileTransfer => ("ErrorFileTransfer"@, msg),
        VfsErrorKind::FileObject => ("ErrorFileObjectRead"@, msg),
        VfsErrorKind::SendObject => ("ErrorSendObject"@, msg),
        VfsErrorKind::ExclusiveAccess(owner) => (
            "ErrorDeviceSetup"@,
            exclusive_access_text(
                match owner {
                    Some(o) => Some(o@),
                    None => None,
                },
            ),
        ),
    }
}

/// The sentinel strings, compared whole; anything else is a general error.
pub open spec fn sentinel_class(msg: Seq<char>) -> Seq<char> {
    if msg == "ErrorMtpDetectFailed"@ {
        "ErrorMtpDetectFailed"@
    } else if msg == "ErrorMtpLockExists"@ {
        "ErrorMtpLockExists"@
    } else if msg == "ErrorDeviceChanged"@ {
        "ErrorDeviceChanged"@
    } else {
        "ErrorGeneral"@
    }
}

/// The substring overrides, in precedence order, tested on the message so
/// far; an override also resets the message to the rendered one. The
/// `LIBUSB_ERROR_NO_DEVICE` override applies only to device-info errors.
pub open spec fn override_class(t: Seq<char>, m: Seq<char>, msg: Seq<char>) -> (Seq<char>, Seq<char>) {
    if contains_seq(m, "allow storage access"@) {
        ("ErrorAllowStorageAccess"@, msg)
    } else if contains_seq(m, "device is not open"@) {
        ("ErrorDeviceLocked"@, msg)
    } else if t == "ErrorDeviceInfo"@ && contains_seq(m, "LIBUSB_ERROR_NO_DEVICE"@) {
        ("ErrorDeviceChanged"@, msg)
    } else if contains_seq(m, "more than 1 device"@) {
        ("ErrorMultipleDevice"@, msg)
    } else if contains_seq(m, "StoreFull"@) {
        ("ErrorStorageFull"@, msg)
    } else if contains_seq(m, "StoreNotAvailable"@) {
        ("ErrorNoStorage"@, msg)
    } else {
        (t, m)
    }
}

/// The classification of an error: `(errorType, message)`.
pub open spec fn classify(e: KernelError) -> (Seq<char>, Seq<char>) {
    let msg = rendered(e);
    if (e matches KernelError::Vfs(VfsErrorKind::Cancelled, _)) || contains_seq(
        msg,
        "transfer cancelled by user"@,
    ) {
        ("ErrorTransferCancelled"@, msg)
    } else {
        let typed = match e {
            KernelError::Vfs(k, _) => typed_class(k, msg),
            KernelError::Message(_) => (Seq::empty(), Seq::empty()),
        };
        let after = if typed.0.len() == 0 {
            (sentinel_class(msg), msg)
        } else {
            typed
        };
        override_class(after.0, after.1, msg)
    }
}

/// What the classification promises whatever the error: cancellation wins
/// over everything; a message asking to allow storage access is reported as
/// such whatever else it says (unless the error names a competing app);
/// and the message handed back is the error's own, except that an
/// exclusive-access error names the competing app.
pub proof fn lemma_classify_law(e: KernelError, m: String)
    ensures
        classify(KernelError::Vfs(VfsErrorKind::Cancelled, m)) == ("ErrorTransferCancelled"@, m@),
        contains_seq(rendered(e), "transfer cancelled by user"@) ==> classify(e) == (
            "ErrorTransferCancelled"@,
            rendered(e),
        ),
        (!(e matches KernelError::Vfs(VfsErrorKind::Cancelled, _)) && !(e matches KernelError::Vfs(
            VfsErrorKind::ExclusiveAccess(_),
            _,
        )) && !contains_seq(
            rendered(e),
            "transfer cancelled by user"@,
        ) && contains_seq(rendered(e), "allow storage access"@)) ==> classify(e) == (
            "ErrorAllowStorageAccess"@,
            rendered(e),
        ),
        !(e matches KernelError::Vfs(VfsErrorKind::ExclusiveAccess(_), _)) ==> classify(e).1 == rendered(e),
        classify(e).0.len() > 0,
{
    reveal_strlit("ErrorTransferCancelled");
    reveal_strlit("ErrorAllowStorageAccess");
    reveal_strlit("ErrorDeviceLocked");
    reveal_strlit("ErrorDeviceChanged");
    reveal_strlit("ErrorMultipleDevice");
    reveal_strlit("ErrorStorageFull");
    reveal_strlit("ErrorNoStorage");
    reveal_strlit("ErrorMtpDetectFailed");
    reveal_strlit("ErrorMtpLockExists");
    reveal_strlit("ErrorGeneral");
    reveal_strlit("ErrorDeviceSetup");
    reveal_strlit("ErrorDeviceInfo");
    reveal_strlit("ErrorStorageInfo");
    reveal_strlit("ErrorListDirectory");
    reveal_strlit("ErrorFileNotFound");
    reveal_strlit("ErrorFilePermission");
    reveal_strlit("ErrorLocalFileRead");
    reveal_strlit("ErrorInvalidPath");
    reveal_strlit("ErrorFileTransfer");
    reveal_strlit("ErrorFileObjectRead");
    reveal_strlit("ErrorSendObject");
}

/// A storage-full response code under a bare engine error is reported as a
/// full storage, unless cancellation or a stronger message override applies.
pub proof fn lemma_classify_storage_full(m: String)
    ensures
        (!contains_seq(m@, "transfer cancelled by user"@) && !contains_seq(m@, "allow storage access"@)
            && !contains_seq(m@, "device is not open"@) && !contains_seq(m@, "more than 1 device"@)
            && !contains_seq(m@, "StoreNotAvailable"@)) ==> classify(
            KernelError::Vfs(VfsErrorKind::Mtp(Some(0x2009)), m),
        ) == ("ErrorStorageFull"@, m@),
{
    reveal_strlit("ErrorStorageFull");
    reveal_strlit("ErrorDeviceInfo");
}

/// The message for an exclusive-access error (see [`exclusive_access_text`]).
pub fn exclusive_access_message(owner: Option<&str>) -> (s: String)
    ensures
        s@ == exclusive_access_text(
            match owner {
                Some(o) => Some(o@),
                None => None,
            },
        ),
{
    match owner {
        Some(o) => {
            let mut s = o.to_owned();
            s.append(" is using the phone. Quit it and reconnect.");
            s
        },
        None => "Another app is using the phone. Quit it and reconnect.".to_owned(),
    }
}

fn owner_ref(owner: &Option<String>) -> (r: Option<&str>)
    ensures
        match (owner, r) {
            (Some(o), Some(x)) => x@ == o@,
            (None, None) => true,
            _ => false,
        },
{
    match owner {
        Some(o) => Some(o.as_str()),
        None => None,
    }
}

/// Classify an error (see [`classify`]).
pub fn process_error(err: &KernelError) -> (r: (&'static str, String))
    ensures
        (r.0@, r.1@) == classify(*err),
{
    let e_error = match err {
        KernelError::Vfs(_, m) => m.clone(),
        KernelError::Message(m) => m.clone(),
    };
    let is_cancel = match err {
        KernelError::Vfs(VfsErrorKind::Cancelled, _) => true,
        _ => false,
    };
    if is_cancel || str_contains(e_error.as_str(), "transfer cancelled by user") {
        return (error_type::TRANSFER_CANCELLED, e_error);
    }
    let mut t: &'static str = "";
    let mut m = String::new();
    proof {
        reveal_strlit("");
    }
    match err {
        KernelError::Vfs(k, _) => match k {
            VfsErrorKind::Mtp(Some(code)) => {
                if *code == 0x2009 {
                    t = error_type::STORAGE_FULL;
                    m = e_error.clone();
                }
            },
            VfsErrorKind::Mtp(None) => {},
            VfsErrorKind::Cancelled => {},
            VfsErrorKind::MtpDetectFailed => {
                t = error_type::MTP_DETECT_FAILED;
                m = e_error.clone();
            },
            VfsErrorKind::Configure => {
                t = error_type::DEVICE_SETUP;
                m = e_error.clone();
            },
            VfsErrorKind::DeviceInfo => {
                t = error_type::DEVICE_INFO;
                m = e_error.clone();
            },
            VfsErrorKind::StorageInfo => {
                t = error_type::STORAGE_INFO;
                m = e_error.clone();
            },
            VfsErrorKind::NoStorage => {
                t = error_type::NO_STORAGE;
                m = e_error.clone();
            },
            VfsErrorKind::ListDirectory => {
                t = error_type::LIST_DIRECTORY;
                m = e_error.clone();
            },
            VfsErrorKind::FileNotFound => {
                t = error_type::FILE_NOT_FOUND;
                m = e_error.clone();
            },
            VfsErrorKind::FilePermission => {
                t = error_type::FILE_PERMISSION;
                m = e_error.clone();
            },
            VfsErrorKind::LocalFile => {
                t = error_type::LOCAL_FILE_READ;
                m = e_error.clone();
            },
            VfsErrorKind::InvalidPath => {
                t = error_type::INVALID_PATH;
                m = e_error.clone();
            },
            VfsErrorKind::FileTransfer => {
                t = error_type::FILE_TRANSFER;
                m = e_error.clone();
            },
            VfsErrorKind::FileObject => {
                t = error_type::FILE_OBJECT_READ;
                m = e_error.clone();
            },
            VfsErrorKind::SendObject => {
                t = error_type::SEND_OBJECT;
                m = e_error.clone();
            },
            VfsErrorKind::ExclusiveAccess(owner) => {
                t = error_type::DEVICE_SETUP;
                m = exclusive_access_message(owner_ref(owner));
            },
        },
        KernelError::Message(_) => {},
    }
    if t.is_empty() {
        if str_eq(e_error.as_str(), "ErrorMtpDetectFailed") {
            t = error_type::MTP_DETECT_FAILED;
        } else if str_eq(e_error.as_str(), "ErrorMtpLockExists") {
            t = error_type::MTP_LOCK_EXISTS;
        } else if str_eq(e_error.as_str(), "ErrorDeviceChanged") {
            t = error_type::DEVICE_CHANGED;
        } else {
            t = error_type::GENERAL;
        }
        m = e_error.clone();
    }
    if str_contains(m.as_str(), "allow storage access") {
        t = error_type::ALLOW_STORAGE_ACCESS;
        m = e_error.clone();
    } else if str_contains(m.as_str(), "device is not open") {
        t = error_type::DEVICE_LOCKED;
        m = e_error.clone();
    } else if str_eq(t, error_type::DEVICE_INFO) && str_contains(m.as_str(), "LIBUSB_ERROR_NO_DEVICE") {
        t = error_type::DEVICE_CHANGED;
        m = e_error.clone();
    } else if str_contains(m.as_str(), "more than 1 device") {
        t = error_type::MULTIPLE_DEVICE;
        m = e_error.clone();
    } else if str_contains(m.as_str(), "StoreFull") {
        t = error_type::STORAGE_FULL;
        m = e_error.clone();
    } else if str_contains(m.as_str(), "StoreNotAvailable") {
        t = error_type::NO_STORAGE;
        m = e_error.clone();
    }
    (t, m)
}

/// The message for a storage enumeration that ended early, which the
/// classifier turns into an allow-storage-access error.
pub fn allow_storage_access_sentinel(inner: &str) -> (s: String)
    ensures
        s@ == "error allow storage access. "@ + inner@,
{
    let mut s = "error allow storage access. ".to_owned();
    s.append(inner);
    s
}

/// The message for an input payload that does not decode: the operation's
/// name and the decoder's description in the host's fixed wording (spelling
/// and trailing `": "` included).
pub fn unmarshalling_error(op: &str, detail: &str) -> (s: String)
    ensures
        s@ == "error occured while Unmarshalling "@ + op@ + " input data "@ + detail@ + ": "@,
{
    let mut s = "error occured while Unmarshalling ".to_owned();
    s.append(op);
    s.append(" input data ");
    s.append(detail);
    s.append(": ");
    s
}

} // verus!
