//! keel — the PTP/MTP wire codec and session engine behind Ferry, with its
//! behaviour stated in contracts and proved.

pub mod error;
pub mod codec;
pub mod utf16;
pub mod ptp_string;
mod strings;
pub mod decimal;
pub mod datetime;
pub mod datetime_law;
pub mod consts;
pub mod container;
pub mod datasets;
pub mod mtp;
pub mod ffi;
pub mod usb;
pub mod pipes;
pub mod probe;
pub mod probe_args;
pub mod conformance;
pub mod json_tree;
pub mod text_order;
pub mod json_diff;
pub mod probe_ffi;
