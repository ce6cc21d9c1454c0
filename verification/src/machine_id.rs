//! Persisting the platform's machine identifier between runs: whether to
//! restore it or create it, where the bytes go, and what each failure
//! reads as.

use vstd::prelude::*;

use crate::error::{KasouError, KasouErrorView};
use crate::paths::{
    parent_of_path, path_exists, path_parent, path_with_extension, path_with_extension_of,
};
use crate::text::{push_str, string_of};

verus! {

/// What to do with the machine identifier file at a configured path.
#[derive(Clone, Debug)]
pub enum MachineIdPlan {
    /// The file exists: read it and decode the identifier from its bytes.
    Restore { path: String },
    /// First boot: persist the platform's fresh identifier at `path`,
    /// creating the directory `parent` first when there is one, by writing
    /// `temp`, syncing it and renaming it onto `path`.
    Create { path: String, parent: Option<String>, temp: String },
}

/// The extension of the temporary file the identifier is written to.
pub open spec fn temp_extension() -> Seq<char> {
    "bin.tmp"@
}

/// The directory to create before writing `path`: its parent, unless the
/// path has none or an empty one.
pub open spec fn directory_to_create(path: Seq<char>) -> Option<Seq<char>> {
    match parent_of_path(path) {
        Some(p) => if p.len() > 0 { Some(p) } else { None },
        None => None,
    }
}

/// Whether `plan` is the plan for the identifier file `path`, given
/// whether that file exists.
pub open spec fn is_plan_for(plan: MachineIdPlan, path: Seq<char>, exists: bool) -> bool {
    if exists {
        plan matches MachineIdPlan::Restore { path: p } && p@ == path
    } else {
        &&& plan matches MachineIdPlan::Create { path: p, parent, temp }
        &&& p@ == path
        &&& temp@ == path_with_extension(path, temp_extension())
        &&& match (parent, directory_to_create(path)) {
            (Some(d), Some(e)) => d@ == e,
            (None, None) => true,
            _ => false,
        }
    }
}

/// The plan restores exactly when the identifier file exists and creates
/// it otherwise, always for the configured path itself; when creating, the
/// temporary file is the path with extension `bin.tmp`, and a directory is
/// created exactly when the path has a non-empty parent, which it is.
pub proof fn lemma_plan_follows_existence(plan: MachineIdPlan, path: Seq<char>, exists: bool)
    requires
        is_plan_for(plan, path, exists),
    ensures
        plan is Restore <==> exists,
        match plan {
            MachineIdPlan::Restore { path: p } => p@ == path,
            MachineIdPlan::Create { path: p, parent, temp } => {
                &&& p@ == path
                &&& temp@ == path_with_extension(path, "bin.tmp"@)
                &&& (parent matches Some(d) ==> parent_of_path(path) == Some(d@) && d@.len()
                    > 0)
                &&& (parent is None ==> parent_of_path(path) matches None || parent_of_path(
                    path,
                ) == Some(Seq::<char>::empty()))
            },
        },
{
    if !exists {
        if let MachineIdPlan::Create { parent, .. } = plan {
            if parent is None {
                if let Some(q) = parent_of_path(path) {
                    assert(q.len() == 0);
                    assert(q =~= Seq::<char>::empty());
                }
            }
        }
    }
}

/// The plan for the identifier file `path`: restore it when it `exists`,
/// otherwise create it through a temporary file beside it.
pub fn plan_machine_identifier(path: &str, exists: bool) -> (r: MachineIdPlan)
    ensures
        is_plan_for(r, path@, exists),
{
    if exists {
        return MachineIdPlan::Restore { path: path.to_string() };
    }
    proof {
        reveal_strlit("bin.tmp");
    }
    let temp = path_with_extension_of(path, "bin.tmp");
    let parent = match path_parent(path) {
        Some(p) => if p.as_str().is_empty() { None } else { Some(p) },
        None => None,
    };
    MachineIdPlan::Create { path: path.to_string(), parent, temp }
}

/// The plan for the identifier file `path` as the host's filesystem has it
/// now: `Path::exists` is asked once, and the plan follows its answer.
pub fn machine_identifier_plan(path: &str) -> (r: MachineIdPlan)
    ensures
        is_plan_for(r, path@, true) || is_plan_for(r, path@, false),
{
    let exists = path_exists(path);
    plan_machine_identifier(path, exists)
}

/// A step of restoring or persisting the identifier that failed, with the
/// path it failed on.
#[derive(Clone, Debug)]
pub enum MachineIdFailure {
    /// Reading the identifier file failed.
    Read { path: String },
    /// The file's bytes are no identifier the framework accepts.
    Corrupt { path: String },
    /// Creating the file's directory failed.
    MakeDir { dir: String },
    /// Creating the temporary file failed.
    Create { temp: String },
    /// Writing the identifier's bytes failed.
    Write { temp: String },
    /// Syncing the temporary file failed.
    Sync { temp: String },
    /// Renaming the temporary file onto the identifier file failed.
    Rename { temp: String, path: String },
}

/// The message of `failure`, whose cause the system described as `detail`
/// (a corrupt file has no such cause).
pub open spec fn failure_text(failure: MachineIdFailure, detail: Seq<char>) -> Seq<char> {
    match failure {
        MachineIdFailure::Read { path } => "read machine identifier from "@ + path@ + ": "@
            + detail,
        MachineIdFailure::Corrupt { path } => "machine identifier at "@ + path@
            + " is corrupt or wrong format"@,
        MachineIdFailure::MakeDir { dir } => "mkdir -p "@ + dir@ + ": "@ + detail,
        MachineIdFailure::Create { temp } => "create "@ + temp@ + ": "@ + detail,
        MachineIdFailure::Write { temp } => "write "@ + temp@ + ": "@ + detail,
        MachineIdFailure::Sync { temp } => "fsync "@ + temp@ + ": "@ + detail,
        MachineIdFailure::Rename { temp, path } => "rename "@ + temp@ + " → "@ + path@ + ": "@
            + detail,
    }
}

/// The validation error reported for `failure`, caused by `detail`.
pub fn machine_identifier_error(failure: &MachineIdFailure, detail: &str) -> (r: KasouError)
    ensures
        r@ == KasouErrorView::Validation(failure_text(*failure, detail@)),
{
    let mut buf: Vec<char> = Vec::new();
    match failure {
        MachineIdFailure::Read { path } => {
            push_str(&mut buf, "read machine identifier from ");
            push_str(&mut buf, path.as_str());
            push_str(&mut buf, ": ");
            push_str(&mut buf, detail);
        },
        MachineIdFailure::Corrupt { path } => {
            push_str(&mut buf, "machine identifier at ");
            push_str(&mut buf, path.as_str());
            push_str(&mut buf, " is corrupt or wrong format");
        },
        MachineIdFailure::MakeDir { dir } => {
            push_str(&mut buf, "mkdir -p ");
            push_str(&mut buf, dir.as_str());
            push_str(&mut buf, ": ");
            push_str(&mut buf, detail);
        },
        MachineIdFailure::Create { temp } => {
            push_str(&mut buf, "create ");
            push_str(&mut buf, temp.as_str());
            push_str(&mut buf, ": ");
            push_str(&mut buf, detail);
        },
        MachineIdFailure::Write { temp } => {
            push_str(&mut buf, "write ");
            push_str(&mut buf, temp.as_str());
            push_str(&mut buf, ": ");
            push_str(&mut buf, detail);
        },
        MachineIdFailure::Sync { temp } => {
            push_str(&mut buf, "fsync ");
            push_str(&mut buf, temp.as_str());
            push_str(&mut buf, ": ");
            push_str(&mut buf, detail);
        },
        MachineIdFailure::Rename { temp, path } => {
            push_str(&mut buf, "rename ");
            push_str(&mut buf, temp.as_str());
            push_str(&mut buf, " → ");
            push_str(&mut buf, path.as_str());
            push_str(&mut buf, ": ");
            push_str(&mut buf, detail);
        },
    }
    let s = string_of(&buf);
    assert(s@ =~= failure_text(*failure, detail@));
    KasouError::Validation(s)
}

} // verus!
