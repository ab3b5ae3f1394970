//! The delivery engine's decisions: how often a file is offered to the
//! transport, what the user is told in between, and how a video's thumbnail
//! is prepared.

use crate::text::{decimal, push_decimal};
use vstd::prelude::*;
use vstd::string::StringExecFns;

verus! {

/// How many times a file is offered to the transport before it is given up.
pub const MAX_RETRIES: u32 = 10;

/// Seconds to wait after a failed attempt, to stay inside the transport's
/// flood control.
pub const COOLDOWN_SECS: u32 = 10;

/// What to do after an attempt to send a file.
#[derive(Debug)]
pub enum DeliveryStep {
    /// The file went out. Nothing more to do for it.
    Delivered,
    /// Wait `COOLDOWN_SECS`, tell the user `report`, and try again.
    Retry { report: String },
    /// Wait `COOLDOWN_SECS` and give the file up with `error`. No further
    /// attempt is made.
    Abandon { error: String },
}

/// How the delivery of one file ended.
#[derive(Debug, Clone, Copy, PartialEq, Eq, Structural)]
pub enum Verdict {
    Delivered,
    Abandoned,
}

/// What the user is told after failed attempt number `attempt`.
pub open spec fn attempt_report(attempt: nat, file: Seq<char>, failure: Seq<char>) -> Seq<char> {
    "Attempt "@ + decimal(attempt) + "/"@ + decimal(MAX_RETRIES as nat) + " at sending '"@ + file
        + "' failed: "@ + failure
}

/// The error with which a file is given up.
pub open spec fn abandon_text(file: Seq<char>) -> Seq<char> {
    "Failed to send file after "@ + decimal(MAX_RETRIES as nat) + " attempts: "@ + file
}

/// What follows attempt number `attempt`: nothing, where it succeeded;
/// another attempt, where it failed and attempts are left; giving up, where
/// it failed and was the last.
pub open spec fn verdict_after(attempt: nat, sent: bool) -> Option<Verdict> {
    if sent {
        Some(Verdict::Delivered)
    } else if attempt < MAX_RETRIES {
        None
    } else {
        Some(Verdict::Abandoned)
    }
}

/// Decides what follows attempt number `attempt` (counted from 1) at sending
/// `file`. `failure` is the transport's complaint, or `None` where the file
/// went out.
pub fn after_attempt(attempt: u32, failure: Option<&str>, file: &str) -> (step: DeliveryStep)
    ensures
        match failure {
            None => step is Delivered,
            Some(complaint) => if attempt < MAX_RETRIES {
                step matches DeliveryStep::Retry { report } && report@ == attempt_report(
                    attempt as nat,
                    file@,
                    complaint@,
                )
            } else {
                step matches DeliveryStep::Abandon { error } && error@ == abandon_text(file@)
            },
        },
        match verdict_after(attempt as nat, failure is None) {
            Some(Verdict::Delivered) => step is Delivered,
            Some(Verdict::Abandoned) => step is Abandon,
            None => step is Retry,
        },
{
    let complaint = match failure {
        None => {
            return DeliveryStep::Delivered;
        },
        Some(complaint) => complaint,
    };
    if attempt < MAX_RETRIES {
        let mut report = "Attempt ".to_owned();
        push_decimal(&mut report, attempt as u128);
        let mut report = report.concat("/");
        push_decimal(&mut report, MAX_RETRIES as u128);
        let report = report.concat(" at sending '").concat(file).concat("' failed: ").concat(
            complaint,
        );
        assert(report@ =~= attempt_report(attempt as nat, file@, complaint@));
        DeliveryStep::Retry { report }
    } else {
        let mut error = "Failed to send file after ".to_owned();
        push_decimal(&mut error, MAX_RETRIES as u128);
        let error = error.concat(" attempts: ").concat(file);
        assert(error@ =~= abandon_text(file@));
        DeliveryStep::Abandon { error }
    }
}

/// How the delivery of a file ends and with which attempt, when the
/// transport answers attempt `k` with `sent[k - 1]`, from attempt `attempt`
/// on.
pub open spec fn delivery_from(sent: Seq<bool>, attempt: nat) -> (Verdict, nat)
    decreases MAX_RETRIES + 1 - attempt,
{
    if attempt < 1 || attempt > sent.len() || attempt > MAX_RETRIES {
        (Verdict::Abandoned, attempt)
    } else {
        match verdict_after(attempt, sent[attempt - 1]) {
            Some(verdict) => (verdict, attempt),
            None => delivery_from(sent, attempt + 1),
        }
    }
}

/// How the delivery of a file ends and after how many attempts.
pub open spec fn delivery(sent: Seq<bool>) -> (Verdict, nat) {
    delivery_from(sent, 1)
}

/// While every attempt from `attempt` up to `until` fails, delivery goes on
/// to attempt `until`.
proof fn lemma_failures_lead_on(sent: Seq<bool>, attempt: nat, until: nat)
    requires
        1 <= attempt <= until <= MAX_RETRIES,
        until <= sent.len(),
        forall|k: int| attempt - 1 <= k < until - 1 ==> !sent[k],
    ensures
        delivery_from(sent, attempt) == delivery_from(sent, until),
    decreases until - attempt,
{
    if attempt < until {
        assert(!sent[attempt as int - 1]);
        lemma_failures_lead_on(sent, attempt + 1, until);
    }
}

/// A file is delivered by the first attempt that the transport accepts,
/// provided it is among the first `MAX_RETRIES`; no attempt follows it. So
/// a file that fails nine times and goes out the tenth time is delivered,
/// not given up.
pub proof fn first_success_delivers(sent: Seq<bool>, attempt: nat)
    requires
        1 <= attempt <= MAX_RETRIES,
        attempt <= sent.len(),
        sent[attempt - 1],
        forall|k: int| 0 <= k < attempt - 1 ==> !sent[k],
    ensures
        delivery(sent) == (Verdict::Delivered, attempt),
{
    lemma_failures_lead_on(sent, 1, attempt);
}

/// A file that the transport refuses `MAX_RETRIES` times is given up after
/// exactly that many attempts, whatever the transport would have answered
/// to further ones.
pub proof fn exhausted_retries_abandon(sent: Seq<bool>)
    requires
        sent.len() >= MAX_RETRIES,
        forall|k: int| 0 <= k < MAX_RETRIES ==> !sent[k],
    ensures
        delivery(sent) == (Verdict::Abandoned, MAX_RETRIES as nat),
{
    lemma_failures_lead_on(sent, 1, MAX_RETRIES as nat);
}

/// `path` with its extension replaced by `extension`, or with `extension`
/// added where it has none, as the standard library's paths define it.
pub uninterp spec fn path_with_extension(path: Seq<char>, extension: Seq<char>) -> Seq<char>;

/// The file name of `path` without its extension, where `path` has a file
/// name, as the standard library's paths define it.
pub uninterp spec fn path_file_stem(path: Seq<char>) -> Option<Seq<char>>;

/// `path` with its last component replaced by `name`, as the standard
/// library's paths define it.
pub uninterp spec fn path_with_file_name(path: Seq<char>, name: Seq<char>) -> Seq<char>;

/// Whether `text` is free of path separators.
pub open spec fn is_plain_name(text: Seq<char>) -> bool {
    forall|i: int| 0 <= i < text.len() ==> text[i] != '/' && text[i] != '\\'
}

/// `std::path::Path::with_extension`, on paths held as text. An extension
/// that holds a path separator is refused by the standard library and is
/// left out.
#[verifier::external_body]
fn with_extension(path: &str, extension: &str) -> (changed: String)
    requires
        is_plain_name(extension@),
    ensures
        changed@ == path_with_extension(path@, extension@),
{
    std::path::Path::new(path).with_extension(extension).to_string_lossy().into_owned()
}

/// `std::path::Path::file_stem`, on a path held as text.
#[verifier::external_body]
fn file_stem(path: &str) -> (stem: Option<String>)
    ensures
        match stem {
            Some(stem) => path_file_stem(path@) == Some(stem@),
            None => path_file_stem(path@) is None,
        },
{
    match std::path::Path::new(path).file_stem() {
        Some(stem) => Some(stem.to_string_lossy().into_owned()),
        None => None,
    }
}

/// `std::path::PathBuf::set_file_name`, on a copy of a path held as text.
#[verifier::external_body]
fn with_file_name(path: &str, name: &str) -> (changed: String)
    ensures
        changed@ == path_with_file_name(path@, name@),
{
    let mut changed = std::path::PathBuf::from(path);
    changed.set_file_name(name);
    changed.to_string_lossy().into_owned()
}

/// The command lines of the thumbnail pipeline: turn upright, shrink to fit
/// 320 by 320, strip metadata, compress to under 200 kB into the temporary
/// file, and move that over the target. Its three arguments are the source,
/// the temporary file and the target.
pub const THUMBNAIL_SCRIPT: &'static str =
    "{ convert \"$1\" -auto-orient -resize '320x320>' -strip - 2>/dev/null | jpegoptim --size=199k --stdin --stdout > \"$2\" 2>/dev/null && mv -f \"$2\" \"$3\" 2>/dev/null; } >/dev/null 2>&1";

/// The files that preparing a thumbnail works on.
#[derive(Debug, Clone)]
pub struct ThumbnailPlan {
    /// The picture that the downloader left beside the video.
    pub source: String,
    /// Where the compressed picture is written first.
    pub temp: String,
    /// Where the finished thumbnail lies, to be attached.
    pub target: String,
}

/// The name of the temporary file for a picture named `stem`.
pub open spec fn temp_name(stem: Seq<char>) -> Seq<char> {
    "."@ + stem + ".tmp.jpeg"@
}

/// The name of the temporary file for a picture named `stem`.
pub fn temp_file_name(stem: &str) -> (name: String)
    ensures
        name@ == temp_name(stem@),
{
    ".".to_owned().concat(stem).concat(".tmp.jpeg")
}

/// The picture that belongs to the video at `video_path`: the same path with
/// the extension `jpg`.
pub fn thumbnail_source(video_path: &str) -> (source: String)
    ensures
        source@ == path_with_extension(video_path@, "jpg"@),
{
    proof {
        reveal_strlit("jpg");
    }
    with_extension(video_path, "jpg")
}

/// Lays out the preparation of the thumbnail that lies at `source`. A path
/// without a file name has no thumbnail: that is an error.
pub fn plan_thumbnail(source: &str) -> (plan: Result<ThumbnailPlan, String>)
    ensures
        match plan {
            Ok(plan) => {
                &&& path_file_stem(source@) is Some
                &&& plan.source@ == source@
                &&& plan.temp@ == path_with_file_name(
                    source@,
                    temp_name(path_file_stem(source@)->0),
                )
                &&& plan.target@ == path_with_extension(source@, "jpeg"@)
            },
            Err(reason) => path_file_stem(source@) is None && reason@ == "Invalid filename"@,
        },
{
    let stem = match file_stem(source) {
        Some(stem) => stem,
        None => {
            return Err("Invalid filename".to_owned());
        },
    };
    proof {
        reveal_strlit("jpeg");
    }
    let target = with_extension(source, "jpeg");
    let temp = with_file_name(source, temp_file_name(stem.as_str()).as_str());
    Ok(ThumbnailPlan { source: source.to_owned(), temp, target })
}

/// `n` in decimal, with a minus sign where it is negative.
pub open spec fn signed_decimal(n: int) -> Seq<char> {
    if n < 0 {
        "-"@ + decimal((-n) as nat)
    } else {
        decimal(n as nat)
    }
}

/// The error of a thumbnail pipeline that ended with `code`, or was ended
/// by a signal where there is none.
pub open spec fn pipeline_failure_text(code: Option<i32>) -> Seq<char> {
    "Processing failed with exit code: "@ + signed_decimal(
        match code {
            Some(code) => code as int,
            None => -1,
        },
    )
}

/// Judges the thumbnail pipeline by how it ended. A failed pipeline is a
/// hard error for the delivery of the video; the caller then removes the
/// temporary file.
pub fn pipeline_verdict(succeeded: bool, code: Option<i32>) -> (verdict: Result<(), String>)
    ensures
        verdict is Ok <==> succeeded,
        verdict matches Err(reason) ==> reason@ == pipeline_failure_text(code),
{
    if succeeded {
        return Ok(());
    }
    let code: i64 = match code {
        Some(code) => code as i64,
        None => -1,
    };
    let mut reason = "Processing failed with exit code: ".to_owned();
    let ghost head = reason@;
    if code < 0 {
        reason = reason.concat("-");
        push_decimal(&mut reason, (-code) as u128);
    } else {
        push_decimal(&mut reason, code as u128);
    }
    assert(reason@ =~= head + signed_decimal(code as int));
    Err(reason)
}

} // verus!
