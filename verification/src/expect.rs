//! Compare-and-swap expectations.
use vstd::prelude::*;

use crate::entity::object::ObjectVersion;
use crate::error::Error;
use crate::error::ErrorKind;

verus! {

/// The version an operation expects its target object to be at.
#[derive(Debug, Clone, PartialEq, Eq)]
pub enum Expect {
    /// Applicable to any version.
    Any,

    /// Applicable only if the object does not exist.
    Absent,

    /// Applicable only to an object at one of the given versions.
    IfMatch(Vec<ObjectVersion>),

    /// Applicable only to an object at none of the given versions.
    IfNoneMatch(Vec<ObjectVersion>),
}

impl Expect {
    /// Whether the expectation accepts an object currently at `version`
    /// (`None` meaning the object does not exist).
    pub open spec fn accepts(&self, version: Option<ObjectVersion>) -> bool {
        match self {
            Expect::Any => true,
            Expect::Absent => version is None,
            Expect::IfMatch(versions) => exists|i: int|
                0 <= i < versions@.len() && Some(versions@[i]) == version,
            Expect::IfNoneMatch(versions) => forall|i: int|
                0 <= i < versions@.len() ==> Some(versions@[i]) != version,
        }
    }

    /// Validates the given current version against this expectation.
    ///
    /// Returns `Ok(())` exactly when the expectation accepts the version;
    /// otherwise the `Unexpected` error reports the actual version, so the
    /// caller can re-read and retry at a higher level.
    pub fn validate(&self, version: Option<ObjectVersion>) -> (r: Result<(), Error>)
        ensures
            r is Ok <==> self.accepts(version),
            r matches Err(e) ==> e.kind == ErrorKind::Unexpected(version),
    {
        let ok = match self {
            Expect::Any => true,
            Expect::Absent => version.is_none(),
            Expect::IfMatch(versions) => {
                let mut found = false;
                let mut i: usize = 0;
                while i < versions.len()
                    invariant
                        0 <= i <= versions@.len(),
                        found <==> exists|j: int|
                            0 <= j < i && Some(versions@[j]) == version,
                    decreases versions@.len() - i,
                {
                    match version {
                        Some(v) => {
                            if versions[i].0 == v.0 {
                                found = true;
                            }
                        },
                        Option::None => {},
                    }
                    i += 1;
                }
                found
            },
            Expect::IfNoneMatch(versions) => {
                let mut clash = false;
                let mut i: usize = 0;
                while i < versions.len()
                    invariant
                        0 <= i <= versions@.len(),
                        clash <==> exists|j: int|
                            0 <= j < i && Some(versions@[j]) == version,
                    decreases versions@.len() - i,
                {
                    match version {
                        Some(v) => {
                            if versions[i].0 == v.0 {
                                clash = true;
                            }
                        },
                        Option::None => {},
                    }
                    i += 1;
                }
                !clash
            },
        };
        if ok {
            Ok(())
        } else {
            Err(Error::new(
                ErrorKind::Unexpected(version),
                "object version does not meet the expectation".to_owned(),
            ))
        }
    }
}

impl Default for Expect {
    /// By default any version is acceptable.
    fn default() -> (e: Self)
        ensures
            e is Any,
    {
        Expect::Any
    }
}

} // verus!
