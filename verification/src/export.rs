//! Reports: the default name of a report file and the choice between its
//! two formats. Writing the file is the caller's part.
use vstd::prelude::*;
use crate::clock::{compact_stamp_shape, local_now_compact};
use crate::text::{ends_with_text, has_suffix};

verus! {

/// The two formats a report can be saved in.
#[derive(Debug, Clone, Copy, PartialEq, Eq)]
pub enum ReportFormat {
    Json,
    Csv,
}

/// The name of a report written at a moment rendered as `stamp`.
pub open spec fn report_filename_text(stamp: Seq<char>, extension: Seq<char>) -> Seq<char> {
    "scan_report_"@ + stamp + seq!['.'] + extension
}

/// Builds `scan_report_<stamp>.<extension>`.
pub fn report_filename(stamp: &str, extension: &str) -> (name: String)
    ensures
        name@ == report_filename_text(stamp@, extension@),
{
    proof {
        reveal_strlit(".");
    }
    let mut name = String::from_str("scan_report_");
    name.append(stamp);
    name.append(".");
    name.append(extension);
    assert(name@ =~= report_filename_text(stamp@, extension@));
    name
}

/// A timestamped name for a report, for instance
/// `scan_report_20260228_143000.json`; the stamp is the local time now, as
/// `%Y%m%d_%H%M%S`.
pub fn generate_default_filename(extension: &str) -> (name: String)
    ensures
        exists|stamp: Seq<char>|
            compact_stamp_shape(stamp) && name@ == report_filename_text(stamp, extension@),
{
    let stamp = local_now_compact();
    report_filename(stamp.as_str(), extension)
}

impl ReportFormat {
    /// The format a chosen path asks for: CSV when it ends with `.csv`,
    /// JSON otherwise.
    pub fn for_path(path: &str) -> (f: ReportFormat)
        ensures
            f == if has_suffix(path@, ".csv"@) { ReportFormat::Csv } else { ReportFormat::Json },
    {
        if ends_with_text(path, ".csv") {
            ReportFormat::Csv
        } else {
            ReportFormat::Json
        }
    }
}

/// What the status line says after an export to `path`.
pub open spec fn export_message_text(path: Seq<char>, outcome: Result<(), Seq<char>>) -> Seq<char> {
    match outcome {
        Ok(()) => "Report exported to "@ + path,
        Err(e) => "Export failed: "@ + e,
    }
}

/// The status line after an export to `path` that succeeded or failed with
/// the error text `outcome`.
pub fn export_message(path: &str, outcome: Result<(), String>) -> (m: String)
    ensures
        m@ == export_message_text(path@, match outcome { Ok(()) => Ok(()), Err(e) => Err(e@) }),
{
    match outcome {
        Ok(()) => {
            let mut m = String::from_str("Report exported to ");
            m.append(path);
            m
        },
        Err(e) => {
            let mut m = String::from_str("Export failed: ");
            m.append(e.as_str());
            m
        },
    }
}

} // verus!
