//! What the commands share: how the range that a command works on is chosen
//! between the one on the command line and the one of a version file.

use vstd::prelude::*;
use crate::bridge::VersionRange;
use crate::engine::{Failure, FailureKind, FailureView};
use crate::files::VersionFile;

verus! {

/// The failure of a command that was given no range and found none.
pub open spec fn no_version_given() -> FailureView {
    FailureView { kind: FailureKind::NoVersionGiven, detail: ""@ }
}

/// The range that was given, or else the one of the version file.
pub open spec fn given_or_file(given: Option<VersionRange>, file: Option<VersionFile>) -> Option<
    Seq<char>,
> {
    match given {
        Some(range) => Some(range@),
        None => match file {
            Some(file) => Some(file.range_spec()),
            None => None,
        },
    }
}

/// The range that was given or the one of the version file, where there is
/// exactly one of the two.
pub open spec fn given_xor_file(given: Option<VersionRange>, file: Option<VersionFile>) -> Option<
    Seq<char>,
> {
    match (given, file) {
        (Some(range), None) => Some(range@),
        (None, Some(file)) => Some(file.range_spec()),
        _ => None,
    }
}

/// The range to work on: the given one, or else the one of the version file.
pub fn range_or_file(given: &Option<VersionRange>, file: Option<VersionFile>) -> (r: Result<
    VersionRange,
    Failure,
>)
    ensures
        r is Ok ==> given_or_file(*given, file) == Some(r->Ok_0@),
        r is Err ==> given_or_file(*given, file) is None && r->Err_0@ == no_version_given(),
{
    match given {
        Some(range) => Ok(range.clone()),
        None => match file {
            Some(file) => Ok(file.range()),
            None => Err(Failure::new(FailureKind::NoVersionGiven, "")),
        },
    }
}

/// The range to work on, where exactly one of the given range and the version
/// file is there.
pub fn range_xor_file(given: &Option<VersionRange>, file: Option<VersionFile>) -> (r: Result<
    VersionRange,
    Failure,
>)
    ensures
        r is Ok ==> given_xor_file(*given, file) == Some(r->Ok_0@),
        r is Err ==> given_xor_file(*given, file) is None && r->Err_0@ == no_version_given(),
{
    match given {
        Some(range) => match file {
            Some(_) => Err(Failure::new(FailureKind::NoVersionGiven, "")),
            None => Ok(range.clone()),
        },
        None => match file {
            Some(file) => Ok(file.range()),
            None => Err(Failure::new(FailureKind::NoVersionGiven, "")),
        },
    }
}

} // verus!
