//! The MTP session engine: session lifecycle, the transaction engine, the
//! operations, and the Android extensions, over a caller-supplied transport.
pub mod error;
pub mod transport;
pub mod session;
pub mod ops;
pub mod android;

pub use error::{MtpError, MtpErrorView, TransportError, TransportErrorView};
pub use session::{MtpSession, SessionView, SeparateHeader, UsbInfo};
pub use transport::{
    DataSink, DataSource, NoProgress, NullSink, ObjectProgress, Pause, SliceSource,
    Transport,
};
