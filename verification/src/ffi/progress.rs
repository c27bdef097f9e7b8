//! The transfer progress report of the wire contract. Its speed and
//! percentages are floating-point values upstream; they arrive here already
//! rendered as JSON number texts (see [`super::json_text::lossy_text`]) and
//! are written verbatim.
use vstd::prelude::*;
use vstd::string::StringExecFns;
use crate::decimal::{dec_signed, push_dec_signed};
use super::json_text::{envelope_ok, json_str, ok_json, push_json_str};

verus! {

/// Per-file or whole-transfer byte totals with a progress percentage.
#[derive(Clone, Debug, PartialEq, Eq)]
pub struct TransferSizeInfo {
    pub total: i64,
    pub sent: i64,
    /// The percentage as its JSON number text.
    pub progress: String,
}

/// The `data` of a progress report. The texts of `speed` and
/// `files_sent_progress` are JSON numbers written as they are.
#[derive(Clone, Debug, PartialEq, Eq)]
pub struct TransferProgressInfo {
    pub full_path: String,
    pub name: String,
    pub elapsed_time: i64,
    pub speed: String,
    pub total_files: i64,
    pub total_directories: i64,
    pub files_sent: i64,
    pub files_sent_progress: String,
    pub active_file_size: TransferSizeInfo,
    pub bulk_file_size: TransferSizeInfo,
    /// `InProgress` or `Completed`.
    pub status: String,
}

/// The JSON object of a [`TransferSizeInfo`].
pub open spec fn transfer_size_info_json(v: TransferSizeInfo) -> Seq<char> {
    "{\"total\":"@ + dec_signed(v.total as int) + ",\"sent\":"@ + dec_signed(v.sent as int) + ",\"progress\":"@
        + v.progress@ + "}"@
}

/// The path, name and elapsed-time members of a progress report, after the
/// opening brace.
pub open spec fn progress_head_json(v: TransferProgressInfo) -> Seq<char> {
    "{\"fullPath\":"@ + json_str(v.full_path@) + ",\"name\":"@ + json_str(v.name@) + ",\"elapsedTime\":"@
        + dec_signed(v.elapsed_time as int)
}

/// The speed and count members of a progress report.
pub open spec fn progress_counts_json(v: TransferProgressInfo) -> Seq<char> {
    ",\"speed\":"@ + v.speed@ + ",\"totalFiles\":"@ + dec_signed(v.total_files as int) + ",\"totalDirectories\":"@
        + dec_signed(v.total_directories as int) + ",\"filesSent\":"@ + dec_signed(v.files_sent as int)
        + ",\"filesSentProgress\":"@ + v.files_sent_progress@
}

/// The size and status members of a progress report, with the closing
/// brace.
pub open spec fn progress_tail_json(v: TransferProgressInfo) -> Seq<char> {
    ",\"activeFileSize\":"@ + transfer_size_info_json(v.active_file_size) + ",\"bulkFileSize\":"@
        + transfer_size_info_json(v.bulk_file_size) + ",\"status\":"@ + json_str(v.status@) + "}"@
}

/// The JSON object of a [`TransferProgressInfo`], keys in wire order.
pub open spec fn transfer_progress_info_json(v: TransferProgressInfo) -> Seq<char> {
    progress_head_json(v) + progress_counts_json(v) + progress_tail_json(v)
}

impl TransferSizeInfo {
    /// The JSON object text (see [`transfer_size_info_json`]).
    pub fn to_json(&self) -> (s: String)
        ensures
            s@ == transfer_size_info_json(*self),
    {
        let mut out = "{\"total\":".to_owned();
        push_dec_signed(&mut out, self.total);
        out.append(",\"sent\":");
        push_dec_signed(&mut out, self.sent);
        out.append(",\"progress\":");
        out.append(self.progress.as_str());
        out.append("}");
        proof {
            assert(out@ =~= transfer_size_info_json(*self));
        }
        out
    }
}

impl TransferProgressInfo {
    fn push_head(&self, out: &mut String)
        ensures
            final(out)@ == old(out)@ + progress_head_json(*self),
    {
        let ghost start = out@;
        out.append("{\"fullPath\":");
        push_json_str(out, self.full_path.as_str());
        out.append(",\"name\":");
        push_json_str(out, self.name.as_str());
        out.append(",\"elapsedTime\":");
        push_dec_signed(out, self.elapsed_time);
        proof {
            assert(out@ =~= start + progress_head_json(*self));
        }
    }

    fn push_counts(&self, out: &mut String)
        ensures
            final(out)@ == old(out)@ + progress_counts_json(*self),
    {
        let ghost start = out@;
        out.append(",\"speed\":");
        out.append(self.speed.as_str());
        out.append(",\"totalFiles\":");
        push_dec_signed(out, self.total_files);
        out.append(",\"totalDirectories\":");
        push_dec_signed(out, self.total_directories);
        out.append(",\"filesSent\":");
        push_dec_signed(out, self.files_sent);
        out.append(",\"filesSentProgress\":");
        out.append(self.files_sent_progress.as_str());
        proof {
            assert(out@ =~= start + progress_counts_json(*self));
        }
    }

    fn push_tail(&self, out: &mut String)
        ensures
            final(out)@ == old(out)@ + progress_tail_json(*self),
    {
        let ghost start = out@;
        out.append(",\"activeFileSize\":");
        let a = self.active_file_size.to_json();
        out.append(a.as_str());
        out.append(",\"bulkFileSize\":");
        let b = self.bulk_file_size.to_json();
        out.append(b.as_str());
        out.append(",\"status\":");
        push_json_str(out, self.status.as_str());
        out.append("}");
        proof {
            assert(out@ =~= start + progress_tail_json(*self));
        }
    }

    /// The JSON object text (see [`transfer_progress_info_json`]).
    pub fn to_json(&self) -> (s: String)
        ensures
            s@ == transfer_progress_info_json(*self),
    {
        let mut out = String::new();
        self.push_head(&mut out);
        self.push_counts(&mut out);
        self.push_tail(&mut out);
        proof {
            assert(out@ =~= transfer_progress_info_json(*self));
        }
        out
    }
}

/// Transfer progress result: the report in the success envelope.
pub fn progress_json(p: &TransferProgressInfo) -> (s: String)
    ensures
        s@ == envelope_ok(transfer_progress_info_json(*p)),
{
    let body = p.to_json();
    ok_json(body.as_str())
}

} // verus!
