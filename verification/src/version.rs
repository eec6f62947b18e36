//! Remote version parsing and the capability gate.
//!
//! The remote service's API surface changes shape across versions.  A
//! version is parsed once from the root resource's dotted version string;
//! every gated call then goes through one capability table that maps the
//! cached version to the path variant to use, or refuses the call naming the
//! minimum version it needs.  Thresholds compare `(major, minor)`
//! lexicographically — the patch level never gates a capability.

use vstd::prelude::*;
use vstd::string::*;

use crate::errors::{ProtocolError, UnsupportedError};
use crate::text::{parse_u32, parse_u32_spec, split_char, split_spec};

verus! {

/// A version triple `{major, minor, patch}` as the remote service reports
/// it.  Ordering is lexicographic on the triple.
#[derive(Debug, Clone, Copy, PartialEq, Eq, Structural)]
pub struct EsVersion {
    pub major: u32,
    pub minor: u32,
    pub patch: u32,
}

/// Lexicographic comparison of `(major, minor)` against a threshold; the
/// patch level is ignored by design.
pub open spec fn spec_at_least(v: EsVersion, major: u32, minor: u32) -> bool {
    v.major > major || (v.major == major && v.minor >= minor)
}

/// What parsing a dotted version string yields: split on `.`, require at
/// least three components, read the first three as numbers.  Extra
/// components are ignored, as in `8.11.1.2`.
pub open spec fn parse_version_spec(s: Seq<char>) -> Option<EsVersion> {
    let parts = split_spec(s, '.');
    if parts.len() < 3 {
        None
    } else {
        match (parse_u32_spec(parts[0]), parse_u32_spec(parts[1]), parse_u32_spec(parts[2])) {
            (Some(major), Some(minor), Some(patch)) => Some(EsVersion { major, minor, patch }),
            _ => None,
        }
    }
}

impl EsVersion {
    /// True when this version is at least `major.minor`.
    pub fn at_least(&self, major: u32, minor: u32) -> (r: bool)
        ensures
            r == spec_at_least(*self, major, minor),
    {
        self.major > major || (self.major == major && self.minor >= minor)
    }

    /// Parse a dotted version string such as `7.17.0`.  Fewer than three
    /// components or a non-numeric component is [`ProtocolError::BadVersion`].
    pub fn from_string(version_str: &str) -> (r: Result<EsVersion, ProtocolError>)
        ensures
            r matches Ok(v) ==> parse_version_spec(version_str@) == Some(v),
            r is Err ==> parse_version_spec(version_str@) is None,
            r matches Err(e) ==> e == ProtocolError::BadVersion,
    {
        let parts = split_char(version_str, '.');
        if parts.len() < 3 {
            return Err(ProtocolError::BadVersion);
        }
        let major = match parse_u32(parts[0].as_str()) {
            Some(v) => v,
            None => {
                return Err(ProtocolError::BadVersion);
            },
        };
        let minor = match parse_u32(parts[1].as_str()) {
            Some(v) => v,
            None => {
                return Err(ProtocolError::BadVersion);
            },
        };
        let patch = match parse_u32(parts[2].as_str()) {
            Some(v) => v,
            None => {
                return Err(ProtocolError::BadVersion);
            },
        };
        Ok(EsVersion { major, minor, patch })
    }
}

/// A named remote-API behavior whose availability depends on the remote
/// version.  Adding a gated capability is a new row here, not new control
/// flow at the call sites.
#[derive(Debug, Clone, Copy, PartialEq, Eq, Structural)]
pub enum Capability {
    /// The index-template endpoint family: `/_index_template` from 7.8 on,
    /// `/_template` below.
    IndexTemplates,
    /// Component templates, introduced in 7.8; there is no older variant,
    /// so below the minimum the call is refused.
    ComponentTemplates,
    /// The structured query language endpoint, available from major 7 on.
    SqlSearch,
}

/// The whole capability table.  When no version has been detected yet, a
/// capability gated on a minimum version assumes the newest known behavior —
/// the modern, narrower path — rather than blocking: some callers skip
/// detection for speed.  (A capability that newer versions removed would
/// instead assume the older, wider path when undetected; the choice stays a
/// per-capability column of this table, never a global rule.)
pub open spec fn gate_spec(cap: Capability, version: Option<EsVersion>) -> Result<
    Seq<char>,
    UnsupportedError,
> {
    match cap {
        Capability::IndexTemplates => match version {
            Some(v) => if spec_at_least(v, 7, 8) {
                Ok("/_index_template"@)
            } else {
                Ok("/_template"@)
            },
            None => Ok("/_index_template"@),
        },
        Capability::ComponentTemplates => match version {
            Some(v) => if spec_at_least(v, 7, 8) {
                Ok("/_component_template"@)
            } else {
                Err(UnsupportedError { min_major: 7, min_minor: 8 })
            },
            None => Ok("/_component_template"@),
        },
        Capability::SqlSearch => match version {
            Some(v) => if v.major >= 7 {
                Ok("/_sql"@)
            } else {
                Err(UnsupportedError { min_major: 7, min_minor: 0 })
            },
            None => Ok("/_sql"@),
        },
    }
}

/// Map a capability and the cached version (when any) to the path variant
/// to call, or refuse with the minimum version the capability needs.
pub fn capability_path(cap: Capability, version: Option<EsVersion>) -> (r: Result<
    String,
    UnsupportedError,
>)
    ensures
        r matches Ok(p) ==> gate_spec(cap, version) == Ok::<Seq<char>, UnsupportedError>(p@),
        r matches Err(e) ==> gate_spec(cap, version) == Err::<Seq<char>, UnsupportedError>(e),
{
    match cap {
        Capability::IndexTemplates => {
            match version {
                Some(v) => {
                    if v.at_least(7, 8) {
                        Ok("/_index_template".to_owned())
                    } else {
                        Ok("/_template".to_owned())
                    }
                },
                None => Ok("/_index_template".to_owned()),
            }
        },
        Capability::ComponentTemplates => {
            match version {
                Some(v) => {
                    if v.at_least(7, 8) {
                        Ok("/_component_template".to_owned())
                    } else {
                        Err(UnsupportedError { min_major: 7, min_minor: 8 })
                    }
                },
                None => Ok("/_component_template".to_owned()),
            }
        },
        Capability::SqlSearch => {
            match version {
                Some(v) => {
                    if v.major >= 7 {
                        Ok("/_sql".to_owned())
                    } else {
                        Err(UnsupportedError { min_major: 7, min_minor: 0 })
                    }
                },
                None => Ok("/_sql".to_owned()),
            }
        },
    }
}

} // verus!
