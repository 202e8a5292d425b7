//! How the tool drives ExifTool: the command lines it runs, where backups
//! go, and how a run's outcome is reported. Starting the process is the
//! caller's part.
use vstd::prelude::*;
use crate::text::{utf8_lossy, utf8_lossy_of};

verus! {

/// The ExifTool command-line program.
pub struct ExifTool;

/// The arguments that print a file's metadata as JSON, grouped by tag
/// group.
pub open spec fn metadata_args_spec(path: Seq<char>) -> Seq<Seq<char>> {
    seq!["-j"@, "-g"@, path]
}

/// The arguments that strip every tag from a file; without a backup the
/// file is overwritten in place, with one ExifTool keeps its own
/// `_original` copy.
pub open spec fn clean_args_spec(path: Seq<char>, backup: bool) -> Seq<Seq<char>> {
    if backup {
        seq!["-all="@, path]
    } else {
        seq!["-all="@, "-overwrite_original"@, path]
    }
}

/// The error text of a failed run.
pub open spec fn failure_text(context: Seq<char>, stderr: Seq<u8>) -> Seq<char> {
    context + utf8_lossy_of(stderr)
}

/// Names what `serde_json::from_str::<Vec<serde_json::Value>>` gives for a
/// text, with each element rendered back as JSON text and an error
/// rendered as its message.
pub uninterp spec fn metadata_objects(text: Seq<char>) -> Result<Seq<Seq<char>>, Seq<char>>;

/// Calls `serde_json::from_str::<Vec<serde_json::Value>>` and renders each
/// element with `Value`'s `Display` (compact JSON) and an error with the
/// error's `Display`. Trusted: the result is a function of the text alone.
#[verifier::external_body]
fn parse_metadata_json(text: &str) -> (r: Result<Vec<String>, String>)
    ensures
        match r {
            Ok(v) => metadata_objects(text@) == Ok::<Seq<Seq<char>>, Seq<char>>(v.deep_view()),
            Err(e) => metadata_objects(text@) == Err::<Seq<Seq<char>>, Seq<char>>(e@),
        },
{
    match serde_json::from_str::<Vec<serde_json::Value>>(text) {
        Ok(values) => Ok(values.iter().map(|v| v.to_string()).collect()),
        Err(e) => Err(e.to_string()),
    }
}

/// What a metadata read yields.
pub open spec fn metadata_outcome_spec(success: bool, stdout: Seq<u8>, stderr: Seq<u8>) -> Result<
    Seq<char>,
    Seq<char>,
> {
    if !success {
        Err(failure_text("ExifTool failed: "@, stderr))
    } else {
        match metadata_objects(utf8_lossy_of(stdout)) {
            Ok(objects) => if objects.len() > 0 {
                Ok(objects[0])
            } else {
                Err("No metadata found"@)
            },
            Err(e) => Err(e),
        }
    }
}

impl ExifTool {
    /// The program to run.
    pub fn program() -> (p: &'static str)
        ensures
            p@ == "exiftool"@,
    {
        "exiftool"
    }

    /// The arguments that ask ExifTool for its version, to learn whether it
    /// is installed.
    pub fn version_args() -> (args: Vec<String>)
        ensures
            args.deep_view() == seq!["-ver"@],
    {
        let mut args: Vec<String> = Vec::new();
        args.push(String::from_str("-ver"));
        assert(args.deep_view() =~= seq!["-ver"@]);
        args
    }

    /// The arguments of a metadata read.
    pub fn metadata_args(path: &str) -> (args: Vec<String>)
        ensures
            args.deep_view() == metadata_args_spec(path@),
    {
        let mut args: Vec<String> = Vec::new();
        args.push(String::from_str("-j"));
        args.push(String::from_str("-g"));
        args.push(String::from_str(path));
        assert(args.deep_view() =~= metadata_args_spec(path@));
        args
    }

    /// The arguments of a clean.
    pub fn clean_args(path: &str, backup: bool) -> (args: Vec<String>)
        ensures
            args.deep_view() == clean_args_spec(path@, backup),
    {
        let mut args: Vec<String> = Vec::new();
        args.push(String::from_str("-all="));
        if !backup {
            args.push(String::from_str("-overwrite_original"));
        }
        args.push(String::from_str(path));
        assert(args.deep_view() =~= clean_args_spec(path@, backup));
        args
    }

    /// Where the copy made before cleaning goes: the path with
    /// `.original` appended.
    pub fn backup_path(path: &str) -> (p: String)
        ensures
            p@ == path@ + ".original"@,
    {
        let mut p = String::from_str(path);
        p.append(".original");
        p
    }

    /// The outcome of a clean: success when the process reported success,
    /// otherwise an error that quotes its standard error.
    pub fn clean_outcome(success: bool, stderr: &[u8]) -> (r: Result<(), String>)
        ensures
            success ==> r is Ok,
            !success ==> (r matches Err(e)
                && e@ == failure_text("Failed to clean metadata: "@, stderr@)),
    {
        if success {
            Ok(())
        } else {
            let mut e = String::from_str("Failed to clean metadata: ");
            let detail = utf8_lossy(stderr);
            e.append(detail.as_str());
            Err(e)
        }
    }

    /// The outcome of a metadata read: the error text of a failed process;
    /// otherwise standard output, decoded as UTF-8 with replacement and
    /// read as a JSON array, gives its first element as JSON text, or the
    /// error `No metadata found` when the array is empty, or the parser's
    /// error.
    pub fn metadata_outcome(success: bool, stdout: &[u8], stderr: &[u8]) -> (r: Result<String, String>)
        ensures
            match r {
                Ok(m) => metadata_outcome_spec(success, stdout@, stderr@) == Ok::<Seq<char>, Seq<char>>(m@),
                Err(e) => metadata_outcome_spec(success, stdout@, stderr@) == Err::<Seq<char>, Seq<char>>(e@),
            },
    {
        if !success {
            let mut e = String::from_str("ExifTool failed: ");
            let detail = utf8_lossy(stderr);
            e.append(detail.as_str());
            return Err(e);
        }
        let text = utf8_lossy(stdout);
        match parse_metadata_json(text.as_str()) {
            Ok(objects) => {
                if objects.len() > 0 {
                    let first = objects[0].clone();
                    Ok(first)
                } else {
                    Err(String::from_str("No metadata found"))
                }
            },
            Err(e) => Err(e),
        }
    }
}

} // verus!
