//! The report of a job, and the decision what a trigger's payload asks for.

use crate::elapsed::{elapsed_text, Elapsed};
use crate::inventory::DirData;
use crate::request::{
    filter_of_code, lowercase_of, scale_op_of, FilterKind, ScaleOp, ScaleRequest, TransformError,
};
use vstd::prelude::*;
use vstd::string::*;

verus! {

/// The outward report of a job.
#[derive(Clone, Debug)]
pub struct Response {
    /// How long the scaling took, as text.
    pub time: String,
    /// The directory's size before and after, as text.
    pub size: String,
}

/// A report as a mathematical value.
pub struct Report {
    pub time: Seq<char>,
    pub size: Seq<char>,
}

impl View for Response {
    type V = Report;

    open spec fn view(&self) -> Report {
        Report { time: self.time@, size: self.size@ }
    }
}

/// The words that open the time text of a scaling in the direction `op`.
pub open spec fn took_label(op: ScaleOp) -> Seq<char> {
    match op {
        ScaleOp::Up => "Scale up took "@,
        ScaleOp::Down => "Scale down took "@,
    }
}

/// The size text of a report: the size texts of the inventories taken before
/// and after the scaling.
pub open spec fn size_change_text(init: Seq<char>, scaled: Seq<char>) -> Seq<char> {
    "Init dir size: "@ + init + " --> Scaled dir size: "@ + scaled + "."@
}

/// The report of a finished job.
pub open spec fn job_report(
    op: ScaleOp,
    init: Seq<char>,
    scaled: Seq<char>,
    secs: nat,
    nanos: nat,
) -> Report {
    Report {
        time: took_label(op) + elapsed_text(secs, nanos),
        size: size_change_text(init, scaled),
    }
}

/// The report that answers an operation code that names no operation: both
/// fields hold the same marker.
pub open spec fn error_report() -> Report {
    Report { time: "ERROR incorrect scale_op"@, size: "ERROR incorrect scale_op"@ }
}

/// The directory that a job scans: the payload's directory under the mount
/// point of the shared file system.
pub open spec fn root_path(dir: Seq<char>) -> Seq<char> {
    "/mnt/efs/"@ + dir
}

impl Response {
    /// The report of a finished job, from the inventories taken before and
    /// after the scaling and the time that the scaling took.
    pub fn new(op: ScaleOp, init: &DirData, scaled: &DirData, took: &Elapsed) -> (r: Response)
        ensures
            r@ == job_report(op, init@.size, scaled@.size, took.secs(), took.nanos()),
    {
        let mut time = match op {
            ScaleOp::Up => String::from_str("Scale up took "),
            ScaleOp::Down => String::from_str("Scale down took "),
        };
        let span = took.to_string();
        time.append(span.as_str());
        let mut size = String::from_str("Init dir size: ");
        size.append(init.size.as_str());
        size.append(" --> Scaled dir size: ");
        size.append(scaled.size.as_str());
        size.append(".");
        Response { time, size }
    }

    /// The report that answers an operation code that names no operation.
    pub fn incorrect_scale_op() -> (r: Response)
        ensures
            r@ == error_report(),
    {
        Response {
            time: String::from_str("ERROR incorrect scale_op"),
            size: String::from_str("ERROR incorrect scale_op"),
        }
    }
}

/// What a payload asks for.
#[derive(Debug)]
pub enum Dispatch {
    /// Scale every image file of `root_dir` as `request` says.
    Run { root_dir: String, request: ScaleRequest },
    /// Touch no file and answer with this report.
    Answer(Response),
    /// Touch no file and fail.
    Fail(TransformError),
}

/// The directory that a job scans.
pub fn root_dir(dir: &str) -> (root: String)
    ensures
        root@ == root_path(dir@),
{
    let mut root = String::from_str("/mnt/efs/");
    root.append(dir);
    root
}

/// Decides what a payload asks for. An operation code other than `up` and
/// `down` is answered with the error report, whatever the other fields hold.
/// Under a known operation a factor of zero fails, and any other factor runs
/// the job on the payload's directory, with the filter that the filter name
/// stands for.
pub fn dispatch(dir: &str, scale_op: &str, scale_factor: u32, filter: &str) -> (d: Dispatch)
    ensures
        match scale_op_of(scale_op@) {
            None => d matches Dispatch::Answer(r) && r@ == error_report(),
            Some(op) => if scale_factor == 0 {
                d matches Dispatch::Fail(e) && e == TransformError::ZeroFactor
            } else {
                d matches Dispatch::Run { root_dir, request } && root_dir@ == root_path(dir@)
                    && request.op() == op && request.factor() == scale_factor && request.filter()
                    == filter_of_code(lowercase_of(filter@))
            },
        },
{
    match ScaleOp::from_code(scale_op) {
        None => Dispatch::Answer(Response::incorrect_scale_op()),
        Some(op) => {
            match ScaleRequest::new(op, scale_factor, FilterKind::from_name(filter)) {
                None => Dispatch::Fail(TransformError::ZeroFactor),
                Some(request) => Dispatch::Run { root_dir: root_dir(dir), request },
            }
        },
    }
}

} // verus!
