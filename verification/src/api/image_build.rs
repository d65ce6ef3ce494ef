//! `POST /build`: an image built from an uploaded context in an isolated
//! VM. Where the context is unpacked, whether the build is measured, and how
//! each failure is answered; the caller streams, unpacks and builds.
use vstd::prelude::*;

use crate::text::{join_path, path_join, push_str, str_eq, to_owned_string};

verus! {

/// The `measured` query parameter asks for a measured build only when it is
/// exactly `true`.
pub fn measured_requested(param: Option<&str>) -> (b: bool)
    ensures
        b <==> (param matches Some(v) && v@ == "true"@),
{
    match param {
        Some(v) => str_eq(v, "true"),
        None => false,
    }
}

/// A build is measured when the query or the Vyomafile asks for it.
pub fn build_is_measured(query: bool, vyomafile_directive: bool) -> (b: bool)
    ensures
        b == (query || vyomafile_directive),
{
    query || vyomafile_directive
}

/// Where a build's files go inside its temporary directory and the home.
#[derive(Debug, Clone)]
pub struct BuildLayout {
    pub archive: String,
    pub context_dir: String,
    pub vyomafile: String,
    pub work_dir: String,
}

pub fn build_layout(temp_dir: &str, home: &str) -> (l: BuildLayout)
    ensures
        l.archive@ == join_path(temp_dir@, "context.tar.gz"@),
        l.context_dir@ == join_path(temp_dir@, "context"@),
        l.vyomafile@ == join_path(join_path(temp_dir@, "context"@), "Vyomafile"@),
        l.work_dir@ == join_path(join_path(home@, ".vyoma"@), "builds"@),
{
    let context_dir = path_join(temp_dir, "context");
    let vyomafile = path_join(context_dir.as_str(), "Vyomafile");
    let root = path_join(home, ".vyoma");
    BuildLayout {
        archive: path_join(temp_dir, "context.tar.gz"),
        context_dir,
        vyomafile,
        work_dir: path_join(root.as_str(), "builds"),
    }
}

/// Why a build failed.
#[derive(Debug, Clone)]
pub enum BuildFailure {
    /// Receiving or storing the context, or preparing directories.
    Io { error: String },
    Unpack { error: String },
    MissingVyomafile,
    Parse { error: String },
    NoHome,
    /// The build itself; `detail` renders the builder's error.
    Build { detail: String },
}

/// The answer for a failed build.
pub fn build_failure_reply(f: BuildFailure) -> (e: (u16, String))
    ensures
        f matches BuildFailure::Io { error } ==> e.0 == 500 && e.1 == error,
        f matches BuildFailure::Unpack { error } ==> e.0 == 500 && e.1@ == "Unpack failed: "@ + error@,
        f is MissingVyomafile ==> e.0 == 400 && e.1@ == "Vyomafile not found in build context"@,
        f matches BuildFailure::Parse { error } ==> e.0 == 400 && e.1@ == "Failed to parse Vyomafile: "@ + error@,
        f is NoHome ==> e.0 == 500 && e.1@ == "No home dir"@,
        f matches BuildFailure::Build { detail } ==> e.0 == 500 && e.1@ == "Build failed: "@ + detail@,
{
    match f {
        BuildFailure::Io { error } => (500, error),
        BuildFailure::Unpack { error } => {
            let mut m = to_owned_string("Unpack failed: ");
            push_str(&mut m, error.as_str());
            (500, m)
        },
        BuildFailure::MissingVyomafile => (400, to_owned_string("Vyomafile not found in build context")),
        BuildFailure::Parse { error } => {
            let mut m = to_owned_string("Failed to parse Vyomafile: ");
            push_str(&mut m, error.as_str());
            (400, m)
        },
        BuildFailure::NoHome => (500, to_owned_string("No home dir")),
        BuildFailure::Build { detail } => {
            let mut m = to_owned_string("Build failed: ");
            push_str(&mut m, detail.as_str());
            (500, m)
        },
    }
}

} // verus!
