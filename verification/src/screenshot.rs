//! Planning a still-frame capture and classifying how it went.
//!
//! A capture names its output file after the local wall-clock time, extracts
//! one frame from the camera's stream into it, and uploads the file to object
//! storage under a timestamped key. The capture tool and the storage client
//! are outside collaborators: this module computes the plan — file path,
//! capture arguments, object key, retrievable URL — and decides what outcome
//! to report for each combination of their results.

use crate::timefmt::timestamp_chars;
use vstd::prelude::*;

verus! {

/// One local wall-clock instant, broken into its components.
#[derive(Clone, Copy, Debug, PartialEq, Eq, Structural)]
pub struct ClockParts {
    /// Calendar year; the calendar allows years before year zero.
    pub year: i32,
    /// Month, `1` to `12`.
    pub month: u8,
    /// Day of month, `1` to `31`.
    pub day: u8,
    /// Hour, `0` to `23`.
    pub hour: u8,
    /// Minute, `0` to `59`.
    pub minute: u8,
    /// Second, `0` to `59`.
    pub second: u8,
}

/// The component ranges the clock promises.
pub open spec fn clock_in_range(c: ClockParts) -> bool {
    &&& 1 <= c.month <= 12
    &&& 1 <= c.day <= 31
    &&& c.hour <= 23
    &&& c.minute <= 59
    &&& c.second <= 59
}

/// Relies on chrono::Local::now for the current local time, and on the
/// chrono::Datelike and chrono::Timelike accessors to read its components,
/// whose documented ranges the ensures repeats. Nothing else can be promised
/// of a clock reading.
#[verifier::external_body]
fn local_clock_parts() -> (p: ClockParts)
    ensures
        clock_in_range(p),
{
    let now = chrono::Local::now();
    ClockParts {
        year: chrono::Datelike::year(&now),
        month: chrono::Datelike::month(&now) as u8,
        day: chrono::Datelike::day(&now) as u8,
        hour: chrono::Timelike::hour(&now) as u8,
        minute: chrono::Timelike::minute(&now) as u8,
        second: chrono::Timelike::second(&now) as u8,
    }
}

/// The year as the timestamp prints it: years before year zero print as
/// year zero.
pub open spec fn clamped_year(y: int) -> nat {
    if y < 0 {
        0
    } else {
        y as nat
    }
}

/// The timestamp for one clock reading.
pub open spec fn timestamp_of(c: ClockParts) -> Seq<char> {
    timestamp_chars(
        clamped_year(c.year as int),
        c.month as nat,
        c.day as nat,
        c.hour as nat,
        c.minute as nat,
        c.second as nat,
    )
}

/// The local file a capture at timestamp `ts` writes.
pub open spec fn screenshot_path_chars(ts: Seq<char>) -> Seq<char> {
    "/tmp/screenshot_"@ + ts + ".jpg"@
}

/// The object-storage key a capture at timestamp `ts` uploads under.
pub open spec fn s3_key_chars(ts: Seq<char>) -> Seq<char> {
    "screenshots/"@ + ts + ".jpg"@
}

/// The retrievable URL for an uploaded object key.
pub open spec fn s3_url_chars(key: Seq<char>) -> Seq<char> {
    "https://smart-doorbell-bucket.s3.us-east-1.amazonaws.com/"@ + key
}

/// The arguments handed to the capture tool: read the camera's stream, take
/// one frame at quality two, write it to `path`.
pub open spec fn ffmpeg_args_chars(path: Seq<char>) -> Seq<Seq<char>> {
    seq!["-i"@, "rtsp://localhost:8554/cam"@, "-vframes"@, "1"@, "-q:v"@, "2"@, path]
}

/// Everything a capture needs: where the frame goes, how to invoke the
/// capture tool, and where the file is uploaded.
pub struct ShotPlan {
    /// Local file the frame is written to.
    pub file_path: String,
    /// Object-storage bucket uploaded into.
    pub bucket: String,
    /// Object key uploaded under.
    pub key: String,
    /// URL the uploaded frame can be retrieved at.
    pub url: String,
    /// Arguments for the capture tool.
    pub args: Vec<String>,
}

/// What a plan for the clock reading `c` holds.
pub open spec fn plan_matches(p: ShotPlan, c: ClockParts) -> bool {
    let ts = timestamp_of(c);
    &&& p.file_path@ == screenshot_path_chars(ts)
    &&& p.bucket@ == "smart-doorbell-bucket"@
    &&& p.key@ == s3_key_chars(ts)
    &&& p.url@ == s3_url_chars(s3_key_chars(ts))
    &&& p.args.deep_view() == ffmpeg_args_chars(screenshot_path_chars(ts))
}

/// Build the local file path for a timestamp.
pub fn screenshot_path(ts: &str) -> (r: String)
    ensures
        r@ == screenshot_path_chars(ts@),
{
    let mut s = String::from_str("/tmp/screenshot_");
    s.append(ts);
    s.append(".jpg");
    proof {
        assert(s@ =~= screenshot_path_chars(ts@));
    }
    s
}

/// Build the object key for a timestamp.
pub fn s3_key(ts: &str) -> (r: String)
    ensures
        r@ == s3_key_chars(ts@),
{
    let mut s = String::from_str("screenshots/");
    s.append(ts);
    s.append(".jpg");
    proof {
        assert(s@ =~= s3_key_chars(ts@));
    }
    s
}

/// Build the retrievable URL for an object key.
pub fn s3_url(key: &str) -> (r: String)
    ensures
        r@ == s3_url_chars(key@),
{
    let mut s = String::from_str("https://smart-doorbell-bucket.s3.us-east-1.amazonaws.com/");
    s.append(key);
    proof {
        assert(s@ =~= s3_url_chars(key@));
    }
    s
}

/// Build the capture tool's argument list for an output path.
pub fn ffmpeg_args(path: &str) -> (r: Vec<String>)
    ensures
        r.deep_view() == ffmpeg_args_chars(path@),
{
    let mut v: Vec<String> = Vec::new();
    v.push(String::from_str("-i"));
    v.push(String::from_str("rtsp://localhost:8554/cam"));
    v.push(String::from_str("-vframes"));
    v.push(String::from_str("1"));
    v.push(String::from_str("-q:v"));
    v.push(String::from_str("2"));
    v.push(String::from_str(path));
    proof {
        assert(v.deep_view() =~= ffmpeg_args_chars(path@));
    }
    v
}

/// Build the whole plan for one clock reading.
pub fn plan_at(c: &ClockParts) -> (p: ShotPlan)
    ensures
        plan_matches(p, *c),
{
    let year: u32 = if c.year < 0 {
        0
    } else {
        c.year as u32
    };
    let ts = crate::timefmt::format_timestamp(year, c.month, c.day, c.hour, c.minute, c.second);
    let file_path = screenshot_path(ts.as_str());
    let key = s3_key(ts.as_str());
    let url = s3_url(key.as_str());
    let args = ffmpeg_args(file_path.as_str());
    ShotPlan { file_path, bucket: String::from_str("smart-doorbell-bucket"), key, url, args }
}

/// Build the plan for a capture taken now, from the local clock.
pub fn screenshot_plan() -> (p: ShotPlan)
    ensures
        exists|c: ClockParts| #[trigger] plan_matches(p, c) && clock_in_range(c),
{
    let c = local_clock_parts();
    let p = plan_at(&c);
    proof {
        assert(plan_matches(p, c) && clock_in_range(c));
    }
    p
}

/// How one whole capture request ended.
#[derive(Debug, Clone, PartialEq, Eq)]
pub enum ShotOutcome {
    /// The frame was captured and uploaded; holds the retrievable URL.
    Uploaded(String),
    /// The capture tool failed; no frame was stored anywhere. Holds the
    /// tool's reported cause.
    CaptureFailed(String),
    /// The frame was captured and saved locally, but could not be uploaded:
    /// a partial side effect, distinguished from a failed capture.
    UploadFailed { saved_path: String, cause: String },
}

/// Decide what a capture request reports, given the capture tool's result
/// and — only if the capture succeeded — the upload's result. The upload is
/// attempted exactly when the capture succeeded.
pub fn shot_outcome(plan: ShotPlan, capture: Result<(), String>, upload: Option<
    Result<(), String>,
>) -> (r: ShotOutcome)
    requires
        capture is Ok <==> upload is Some,
    ensures
        capture matches Err(e) ==> r == ShotOutcome::CaptureFailed(e),
        upload matches Some(Err(e)) ==> r == (ShotOutcome::UploadFailed {
            saved_path: plan.file_path,
            cause: e,
        }),
        upload matches Some(Ok(u)) ==> r == ShotOutcome::Uploaded(plan.url),
{
    match capture {
        Err(e) => ShotOutcome::CaptureFailed(e),
        Ok(_) => match upload {
            Some(Err(e)) => ShotOutcome::UploadFailed { saved_path: plan.file_path, cause: e },
            _ => ShotOutcome::Uploaded(plan.url),
        },
    }
}

/// The HTTP status a capture's outcome maps to: only a completed upload is a
/// success; capture and upload failures are server errors.
pub fn shot_status_code(r: &ShotOutcome) -> (c: u16)
    ensures
        r matches ShotOutcome::Uploaded(u) ==> c == 200,
        !(r is Uploaded) ==> c == 500,
{
    match r {
        ShotOutcome::Uploaded(_) => 200,
        _ => 500,
    }
}

} // verus!
