//! Parsing a dispatched argument vector into a typed unit of work, and
//! reporting the two independent outcomes of running it.
//!
//! The vector holds the meaningful tokens of a dispatch, in order: an
//! optional `--delete-after` prefix, then either `--process-url` with a URL
//! or a bare file path.  A vector that fits no rule is a no-op, never an
//! error.

use crate::text::{spec_starts_with, starts_with_str, str_eq};
use vstd::prelude::*;

verus! {

/// Where a unit of work takes its image from.
pub enum WorkSource {
    /// Fetch the image from a URL.
    FromUrl { url: String },
    /// Open the image from a file on disk.
    FromFile { path: String },
}

/// One parsed unit of work, with its optional cleanup obligation: a path to
/// delete, best effort, once processing has run.
pub struct WorkItem {
    pub source: WorkSource,
    pub cleanup_path: Option<String>,
}

/// What an argument vector dispatches to.
pub enum Dispatch {
    /// Nothing recognizable was asked for; the invocation exits quietly.
    NoOp,
    /// A unit of work to run.
    Work(WorkItem),
}

/// The parse of an argument vector, at the specification level.  A file work
/// item's cleanup obligation is the file's own path, present exactly when
/// the vector began with `--delete-after`.
pub enum SpecDispatch {
    NoOp,
    UrlWork { url: Seq<char> },
    FileWork { path: Seq<char>, delete_after: bool },
}

/// Parsing: an optional leading `--delete-after` marks the token that
/// follows it for deletion; `--process-url` takes the next token as a URL;
/// a token that is no flag is a file path; anything else is a no-op.
pub open spec fn spec_parse_dispatch(args: Seq<Seq<char>>) -> SpecDispatch {
    if args.len() == 0 {
        SpecDispatch::NoOp
    } else {
        let delete_after = args[0] == "--delete-after"@;
        let idx = if delete_after {
            1int
        } else {
            0int
        };
        if args.len() <= idx {
            SpecDispatch::NoOp
        } else if args[idx] == "--process-url"@ {
            if args.len() > idx + 1 {
                SpecDispatch::UrlWork { url: args[idx + 1] }
            } else {
                SpecDispatch::NoOp
            }
        } else if !spec_starts_with(args[idx], "--"@) {
            SpecDispatch::FileWork { path: args[idx], delete_after }
        } else {
            SpecDispatch::NoOp
        }
    }
}

/// Parses `args` exactly as [`spec_parse_dispatch`] describes.  A URL work
/// item never carries a cleanup obligation; a file work item carries its own
/// path as the obligation exactly when `--delete-after` led the vector.
pub fn parse_dispatch(args: &Vec<String>) -> (r: Dispatch)
    ensures
        (r matches Dispatch::NoOp) == (spec_parse_dispatch(args.deep_view()) is NoOp),
        r matches Dispatch::Work(w) ==> match w.source {
            WorkSource::FromUrl { url } => spec_parse_dispatch(args.deep_view())
                == (SpecDispatch::UrlWork { url: url@ }) && w.cleanup_path is None,
            WorkSource::FromFile { path } => {
                &&& spec_parse_dispatch(args.deep_view()) matches SpecDispatch::FileWork {
                    path: p,
                    delete_after,
                }
                &&& path@ == p
                &&& w.cleanup_path.deep_view() == if delete_after {
                    Option::<Seq<char>>::Some(p)
                } else {
                    Option::<Seq<char>>::None
                }
            },
        },
{
    proof {
        assert(args.deep_view().len() == args@.len());
        assert(forall|i: int|
            0 <= i < args@.len() ==> args.deep_view()[i] == #[trigger] args@[i]@);
    }
    if args.len() == 0 {
        return Dispatch::NoOp;
    }
    let delete_after = str_eq(args[0].as_str(), "--delete-after");
    let idx: usize = if delete_after {
        1
    } else {
        0
    };
    if args.len() <= idx {
        return Dispatch::NoOp;
    }
    let tok: &String = &args[idx];
    if str_eq(tok.as_str(), "--process-url") {
        if args.len() > idx + 1 {
            let url = args[idx + 1].clone();
            return Dispatch::Work(WorkItem { source: WorkSource::FromUrl { url }, cleanup_path: None });
        }
        return Dispatch::NoOp;
    }
    if !starts_with_str(tok.as_str(), "--") {
        let path = tok.clone();
        let cleanup_path = if delete_after {
            Some(tok.clone())
        } else {
            None
        };
        return Dispatch::Work(WorkItem { source: WorkSource::FromFile { path }, cleanup_path });
    }
    Dispatch::NoOp
}

/// How the cleanup obligation of a work item ended.
pub enum CleanupStatus {
    /// The work item carried no obligation.
    NotRequired,
    /// The path was deleted.
    Removed,
    /// Deleting the path failed; the message says why.
    Failed { message: String },
}

/// The two outcomes of one dispatch, reported side by side: how processing
/// ended, and how the cleanup obligation ended.
pub struct DispatchReport {
    pub processing: Result<(), String>,
    pub cleanup: CleanupStatus,
}

/// Joins the outcome of processing and the outcome of cleanup into one
/// report that surfaces both: neither masks the other.
pub fn finish_work_item(processing: Result<(), String>, cleanup: CleanupStatus) -> (r:
    DispatchReport)
    ensures
        r.processing == processing,
        r.cleanup == cleanup,
{
    DispatchReport { processing, cleanup }
}

/// Cleanup independence: the reported processing outcome is the same
/// whatever became of the cleanup obligation, and the reported cleanup
/// outcome is the same whatever processing returned.
pub proof fn lemma_cleanup_independence(
    processing: Result<(), String>,
    c1: CleanupStatus,
    c2: CleanupStatus,
    p1: Result<(), String>,
    p2: Result<(), String>,
    cleanup: CleanupStatus,
)
    ensures
        (DispatchReport { processing, cleanup: c1 }).processing == (DispatchReport {
            processing,
            cleanup: c2,
        }).processing,
        (DispatchReport { processing: p1, cleanup }).cleanup == (DispatchReport {
            processing: p2,
            cleanup,
        }).cleanup,
{
}

} // verus!
