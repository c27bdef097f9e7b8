//! The session engine's errors. Exactly two classes are fatal and close the
//! connection: lost protocol synchronisation and transport failures.
use vstd::prelude::*;
use vstd::string::StringExecFns;
use crate::error::{ProtoError, ProtoErrorView, RcError, proto_error_text, rc_error_text};

verus! {

/// A transport-level failure.
#[derive(Debug, Clone, PartialEq, Eq)]
pub enum TransportError {
    /// The transfer timed out.
    Timeout,
    /// The device left the bus; its text carries `LIBUSB_ERROR_NO_DEVICE`.
    DeviceGone,
    /// The endpoint stalled.
    Stall,
    /// Anything else, with the underlying description.
    Io(String),
}

/// The text of a transport error.
pub open spec fn transport_error_text(e: TransportErrorView) -> Seq<char> {
    match e {
        TransportErrorView::Timeout => "usb transfer timeout"@,
        TransportErrorView::DeviceGone => "LIBUSB_ERROR_NO_DEVICE: device is gone"@,
        TransportErrorView::Stall => "usb endpoint stall"@,
        TransportErrorView::Io(s) => "usb i/o error: "@ + s,
    }
}

/// A transport error with its description as a sequence.
pub enum TransportErrorView {
    Timeout,
    DeviceGone,
    Stall,
    Io(Seq<char>),
}

impl View for TransportError {
    type V = TransportErrorView;

    open spec fn view(&self) -> TransportErrorView {
        match self {
            TransportError::Timeout => TransportErrorView::Timeout,
            TransportError::DeviceGone => TransportErrorView::DeviceGone,
            TransportError::Stall => TransportErrorView::Stall,
            TransportError::Io(s) => TransportErrorView::Io(s@),
        }
    }
}

impl TransportError {
    /// The error's message text.
    pub fn to_string(&self) -> (s: String)
        ensures
            s@ == transport_error_text(self@),
    {
        match self {
            TransportError::Timeout => "usb transfer timeout".to_owned(),
            TransportError::DeviceGone => "LIBUSB_ERROR_NO_DEVICE: device is gone".to_owned(),
            TransportError::Stall => "usb endpoint stall".to_owned(),
            TransportError::Io(d) => {
                let mut s = "usb i/o error: ".to_owned();
                s.append(d.as_str());
                s
            },
        }
    }
}

/// The unified error of the session engine.
#[derive(Debug)]
pub enum MtpError {
    /// A non-OK response code. Does not poison.
    Rc(RcError),
    /// Lost protocol synchronisation. Poisons the session.
    Sync(String),
    /// A transport failure. Poisons the session.
    Transport(TransportError),
    /// A wire decode/encode failure. Does not poison.
    Proto(ProtoError),
    /// The session is already closed. Does not poison.
    Closed,
}

/// An engine error with its texts as sequences.
pub enum MtpErrorView {
    Rc(u16),
    Sync(Seq<char>),
    Transport(TransportErrorView),
    Proto(ProtoErrorView),
    Closed,
}

impl View for MtpError {
    type V = MtpErrorView;

    open spec fn view(&self) -> MtpErrorView {
        match self {
            MtpError::Rc(e) => MtpErrorView::Rc(e.0.0),
            MtpError::Sync(s) => MtpErrorView::Sync(s@),
            MtpError::Transport(e) => MtpErrorView::Transport(e@),
            MtpError::Proto(e) => MtpErrorView::Proto(e@),
            MtpError::Closed => MtpErrorView::Closed,
        }
    }
}

/// Whether an error is fatal: only synchronisation losses and transport
/// failures are.
pub open spec fn poisons_spec(e: MtpErrorView) -> bool {
    e is Sync || e is Transport
}

/// The text of an engine error.
pub open spec fn mtp_error_text(e: MtpErrorView) -> Seq<char> {
    match e {
        MtpErrorView::Rc(c) => rc_error_text(c),
        MtpErrorView::Sync(s) => s,
        MtpErrorView::Transport(t) => transport_error_text(t),
        MtpErrorView::Proto(p) => proto_error_text(p),
        MtpErrorView::Closed => "mtp: cannot run operation, device is not open"@,
    }
}

impl MtpError {
    /// Whether this error must close the connection.
    pub fn poisons(&self) -> (b: bool)
        ensures
            b == poisons_spec(self@),
    {
        match self {
            MtpError::Sync(_) | MtpError::Transport(_) => true,
            _ => false,
        }
    }

    /// The error's message text.
    pub fn to_string(&self) -> (s: String)
        ensures
            s@ == mtp_error_text(self@),
    {
        match self {
            MtpError::Rc(e) => e.to_string(),
            MtpError::Sync(m) => m.clone(),
            MtpError::Transport(e) => e.to_string(),
            MtpError::Proto(e) => e.to_string(),
            MtpError::Closed => "mtp: cannot run operation, device is not open".to_owned(),
        }
    }
}

} // verus!
