//! The remote client's state and decisions.
//!
//! A client instance holds the normalized base URL, the credentials, the TLS
//! policy, and the version cached by the one-way `Unversioned → Versioned`
//! transition.  Everything here is computation: URL joining, the basic-auth
//! decision, response classification, version caching and the gated path
//! choices.  Sending the requests — the asynchronous I/O around these
//! decisions — is the caller's side.

use vstd::prelude::*;
use vstd::string::*;

use crate::errors::{ProtocolError, RemoteError, UnsupportedError};
use crate::text::join_spec;
use crate::text::join_strings;
use crate::version::{capability_path, gate_spec, parse_version_spec, Capability, EsVersion};

verus! {

/// The verbs the remote protocol uses.
#[derive(Debug, Clone, Copy, PartialEq, Eq, Structural)]
pub enum HttpMethod {
    Get,
    Post,
    Put,
    Delete,
}

/// A base URL with its trailing slashes stripped.
pub open spec fn trim_trailing_slashes(s: Seq<char>) -> Seq<char>
    decreases s.len(),
{
    if s.len() > 0 && s.last() == '/' {
        trim_trailing_slashes(s.drop_last())
    } else {
        s
    }
}

/// A request path with its leading slashes stripped.
pub open spec fn trim_leading_slashes(s: Seq<char>) -> Seq<char>
    decreases s.len(),
{
    if s.len() > 0 && s[0] == '/' {
        trim_leading_slashes(s.drop_first())
    } else {
        s
    }
}

/// The full URL of a request: base, one slash, then the path without its
/// leading slashes.
pub open spec fn request_url_spec(base: Seq<char>, path: Seq<char>) -> Seq<char> {
    base + "/"@ + trim_leading_slashes(path)
}

/// The client's state: identity and credentials fixed at construction, and
/// the version cached at most once.  The instance starts unversioned; the
/// first successful detection moves it to versioned, one way, and no call
/// ever re-fetches automatically.
pub struct EsClient {
    pub base_url: String,
    pub insecure: bool,
    pub username: Option<String>,
    pub password: Option<String>,
    pub version: Option<EsVersion>,
}

impl EsClient {
    /// Construct a client: the trailing slash of the base URL is stripped,
    /// credentials and the TLS-verification toggle are taken as given, and
    /// no version is cached yet.  Certificate validation is only ever
    /// disabled by this explicit operator-set flag, never by default.
    pub fn new(base_url: String, insecure: bool, username: Option<String>, password: Option<
        String,
    >) -> (r: Self)
        ensures
            r.base_url@ == trim_trailing_slashes(base_url@),
            r.insecure == insecure,
            r.username == username,
            r.password == password,
            r.version is None,
    {
        let n = base_url.as_str().unicode_len();
        let mut end: usize = n;
        proof {
            assert(base_url@.subrange(0, n as int) =~= base_url@);
        }
        while end > 0 && base_url.as_str().get_char(end - 1) == '/'
            invariant
                0 <= end <= n,
                n == base_url@.len(),
                trim_trailing_slashes(base_url@) == trim_trailing_slashes(
                    base_url@.subrange(0, end as int),
                ),
            decreases end,
        {
            proof {
                let cur = base_url@.subrange(0, end as int);
                assert(cur.last() == base_url@[end - 1]);
                assert(cur.drop_last() =~= base_url@.subrange(0, end as int - 1));
            }
            end = end - 1;
        }
        proof {
            let cur = base_url@.subrange(0, end as int);
            if end > 0 {
                assert(cur.last() == base_url@[end - 1]);
                assert(trim_trailing_slashes(cur) == cur);
            } else {
                assert(cur =~= Seq::<char>::empty());
                assert(trim_trailing_slashes(cur) == cur);
            }
            assert(base_url@.subrange(0, n as int) =~= base_url@);
        }
        let trimmed = base_url.as_str().substring_char(0, end).to_owned();
        EsClient { base_url: trimmed, insecure, username, password, version: None }
    }

    /// The cached version, when one has been detected.
    pub fn version(&self) -> (r: Option<&EsVersion>)
        ensures
            r matches Some(v) ==> self.version == Some(*v),
            r is Some <==> self.version is Some,
    {
        match &self.version {
            Some(v) => Some(v),
            None => None,
        }
    }

    /// The normalized base URL.
    pub fn base_url(&self) -> (r: &str)
        ensures
            r@ == self.base_url@,
    {
        self.base_url.as_str()
    }

    /// Whether requests carry HTTP basic authentication: exactly when both a
    /// username and a password are configured; anonymous otherwise.
    pub fn use_basic_auth(&self) -> (r: bool)
        ensures
            r == (self.username is Some && self.password is Some),
    {
        self.username.is_some() && self.password.is_some()
    }

    /// The full URL for a request path.
    pub fn request_url(&self, path: &str) -> (r: String)
        ensures
            r@ == request_url_spec(self.base_url@, path@),
    {
        let n = path.unicode_len();
        let mut start: usize = 0;
        proof {
            assert(path@.subrange(0, n as int) =~= path@);
        }
        while start < n && path.get_char(start) == '/'
            invariant
                0 <= start <= n,
                n == path@.len(),
                trim_leading_slashes(path@) == trim_leading_slashes(
                    path@.subrange(start as int, n as int),
                ),
            decreases n - start,
        {
            proof {
                let cur = path@.subrange(start as int, n as int);
                assert(cur[0] == path@[start as int]);
                assert(cur.drop_first() =~= path@.subrange(start as int + 1, n as int));
            }
            start = start + 1;
        }
        proof {
            let cur = path@.subrange(start as int, n as int);
            if start < n {
                assert(cur[0] == path@[start as int]);
                assert(trim_leading_slashes(cur) == cur);
            } else {
                assert(cur =~= Seq::<char>::empty());
                assert(trim_leading_slashes(cur) == cur);
            }
            assert(path@.subrange(0, n as int) =~= path@);
        }
        let mut url: String = self.base_url.clone();
        url.append("/");
        url.append(path.substring_char(start, n));
        url
    }

    /// Cache the version carried by the root resource's `version.number`
    /// field: the one-way `Unversioned → Versioned` transition.  On a
    /// malformed number nothing changes and the caller decides whether to
    /// proceed ungated or abort.
    pub fn record_version_number(&mut self, number: &str) -> (r: Result<EsVersion, ProtocolError>)
        ensures
            r matches Ok(v) ==> parse_version_spec(number@) == Some(v) && final (self).version
                == Some(v),
            r is Err ==> parse_version_spec(number@) is None && final (self).version == old(
                self,
            ).version,
            r matches Err(e) ==> e == ProtocolError::BadVersion,
            final (self).base_url == old(self).base_url,
            final (self).insecure == old(self).insecure,
            final (self).username == old(self).username,
            final (self).password == old(self).password,
    {
        match EsVersion::from_string(number) {
            Ok(v) => {
                self.version = Some(v);
                Ok(v)
            },
            Err(e) => Err(e),
        }
    }

    /// The index-template path variant for this client's cached version:
    /// the modern family from 7.8 on — and, optimistically, when no version
    /// has been detected — the legacy family below.
    pub fn index_templates_path(&self) -> (r: String)
        ensures
            gate_spec(Capability::IndexTemplates, self.version) == Ok::<Seq<char>, UnsupportedError>(
                r@,
            ),
    {
        match capability_path(Capability::IndexTemplates, self.version) {
            Ok(p) => p,
            Err(_) => {
                proof {
                    assert(gate_spec(Capability::IndexTemplates, self.version) is Ok);
                }
                "/_index_template".to_owned()
            },
        }
    }

    /// The component-template path, available from 7.8 on — and assumed
    /// available, optimistically, when no version has been detected; below
    /// the minimum the call is refused naming it.
    pub fn component_templates_path(&self) -> (r: Result<String, UnsupportedError>)
        ensures
            r matches Ok(p) ==> gate_spec(Capability::ComponentTemplates, self.version) == Ok::<
                Seq<char>,
                UnsupportedError,
            >(p@),
            r matches Err(e) ==> gate_spec(Capability::ComponentTemplates, self.version) == Err::<
                Seq<char>,
                UnsupportedError,
            >(e),
    {
        capability_path(Capability::ComponentTemplates, self.version)
    }

    /// The structured-query-language path, available from major 7 on and
    /// assumed available when no version has been detected.
    pub fn sql_search_path(&self) -> (r: Result<String, UnsupportedError>)
        ensures
            r matches Ok(p) ==> gate_spec(Capability::SqlSearch, self.version) == Ok::<
                Seq<char>,
                UnsupportedError,
            >(p@),
            r matches Err(e) ==> gate_spec(Capability::SqlSearch, self.version) == Err::<
                Seq<char>,
                UnsupportedError,
            >(e),
    {
        capability_path(Capability::SqlSearch, self.version)
    }
}

/// The search path for a set of indices: the bare `/_search` when none are
/// named, otherwise the comma-joined indices before it.
pub fn search_path(indices: &Vec<String>) -> (r: String)
    ensures
        indices@.len() == 0 ==> r@ == "/_search"@,
        indices@.len() > 0 ==> r@ == "/"@ + join_spec(indices@.map_values(|s: String| s@), ","@)
            + "/_search"@,
{
    if indices.len() == 0 {
        "/_search".to_owned()
    } else {
        let mut path: String = "/".to_owned();
        let joined = join_strings(indices, ",");
        path.append(joined.as_str());
        path.append("/_search");
        path
    }
}

/// Classify a response status: the 2xx range succeeds with the raw body,
/// anything else is a status error that keeps the body for diagnostics.
pub fn response_to_result(status: u16, body: String) -> (r: Result<String, RemoteError>)
    ensures
        200 <= status < 300 ==> r == Ok::<String, RemoteError>(body),
        !(200 <= status < 300) ==> r == Err::<String, RemoteError>(
            RemoteError::Status { code: status, body },
        ),
{
    if 200 <= status && status < 300 {
        Ok(body)
    } else {
        Err(RemoteError::Status { code: status, body })
    }
}

} // verus!
