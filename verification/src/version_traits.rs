//! The operators `==` and `<` on versions, and the conversion from three
//! numbers. They go by precedence: build metadata plays no part.

use std::cmp::Ordering;
use vstd::prelude::*;
use vstd::std_specs::cmp::{PartialEqSpecImpl, PartialOrdSpecImpl};
use vstd::std_specs::convert::FromSpecImpl;
use crate::order::Precedence;
use crate::version::{version_precedence, Version, VersionView};

verus! {

impl PartialEq for Version {
    fn eq(&self, other: &Version) -> (r: bool) {
        matches!(self.compare(other), Precedence::Same)
    }
}

impl PartialEqSpecImpl for Version {
    open spec fn obeys_eq_spec() -> bool {
        true
    }

    open spec fn eq_spec(&self, other: &Version) -> bool {
        version_precedence(self@, other@) == Precedence::Same
    }
}

impl PartialOrd for Version {
    fn partial_cmp(&self, other: &Version) -> (r: Option<Ordering>) {
        match self.compare(other) {
            Precedence::Lower => Some(Ordering::Less),
            Precedence::Same => Some(Ordering::Equal),
            Precedence::Higher => Some(Ordering::Greater),
        }
    }
}

impl PartialOrdSpecImpl for Version {
    open spec fn obeys_partial_cmp_spec() -> bool {
        true
    }

    open spec fn partial_cmp_spec(&self, other: &Version) -> Option<Ordering> {
        match version_precedence(self@, other@) {
            Precedence::Lower => Some(Ordering::Less),
            Precedence::Same => Some(Ordering::Equal),
            Precedence::Higher => Some(Ordering::Greater),
        }
    }
}

impl FromSpecImpl<(u64, u64, u64)> for Version {
    /// The conversion is described by the contract of `from`, over the model
    /// of the version, and not by `from_spec`.
    open spec fn obeys_from_spec() -> bool {
        false
    }

    open spec fn from_spec(numbers: (u64, u64, u64)) -> Version {
        arbitrary()
    }
}

impl From<(u64, u64, u64)> for Version {
    fn from(numbers: (u64, u64, u64)) -> (version: Version)
        ensures
            version@ == (VersionView {
                major: numbers.0 as nat,
                minor: numbers.1 as nat,
                patch: numbers.2 as nat,
                build: Seq::empty(),
                pre_release: Seq::empty(),
            }),
    {
        let version = Version {
            major: numbers.0,
            minor: numbers.1,
            patch: numbers.2,
            build: Vec::new(),
            pre_release: Vec::new(),
        };
        proof {
            assert(version@.build =~= Seq::<crate::version::IdentifierView>::empty());
            assert(version@.pre_release =~= Seq::<crate::version::IdentifierView>::empty());
        }
        version
    }
}

} // verus!
