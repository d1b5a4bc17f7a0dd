//! Classification of the positional argument as a local file or a remote
//! URL, and validation of the URL a management request is sent to.

use vstd::prelude::*;
use vstd::string::StringExecFns;

verus! {

/// What the parser extracts from a well-formed URL, at the spec level.
pub struct UrlPartsV {
    /// The scheme, without the trailing colon.
    pub scheme: Seq<char>,
    /// The host, when it is a domain name rather than an IP address.
    pub domain: Option<Seq<char>>,
    /// The whole URL as the parser serializes it back.
    pub serialized: Seq<char>,
}

/// What the library reads from a parsed URL: its scheme, its domain (when
/// the host is one), and its serialization.
#[derive(Clone, Debug)]
pub struct UrlParts {
    /// The scheme, without the trailing colon.
    pub scheme: String,
    /// The host, when it is a domain name rather than an IP address.
    pub domain: Option<String>,
    /// The whole URL as the parser serializes it back.
    pub serialized: String,
}

impl View for UrlParts {
    type V = UrlPartsV;

    open spec fn view(&self) -> UrlPartsV {
        UrlPartsV {
            scheme: self.scheme@,
            domain: match self.domain {
                Some(d) => Some(d@),
                None => None,
            },
            serialized: self.serialized@,
        }
    }
}

/// What URL parsing yields on a given string: None when the string is not a
/// well-formed URL, otherwise the parts the library reads. Parsing is a
/// function of the characters alone.
pub uninterp spec fn url_parse_of(s: Seq<char>) -> Option<UrlPartsV>;

/// Relies on the url crate through reqwest: Url::from_str parses the string
/// (a pure function of it), and scheme(), domain() and as_str() read the
/// scheme, the domain-name host, and the serialization of the parsed value.
#[verifier::external_body]
fn parse_url(s: &str) -> (r: Option<UrlParts>)
    ensures
        r is Some <==> url_parse_of(s@) is Some,
        r matches Some(p) ==> url_parse_of(s@) == Some(p@),
{
    match <reqwest::Url as core::str::FromStr>::from_str(s) {
        Ok(u) => Some(UrlParts {
            scheme: u.scheme().to_owned(),
            domain: u.domain().map(|d| d.to_owned()),
            serialized: u.as_str().to_owned(),
        }),
        Err(_) => None,
    }
}

/// What the user asked to submit: a local file, or a remote URL.
#[derive(Clone, Debug)]
pub enum Target {
    /// A path that names an existing local file.
    File(String),
    /// A well-formed remote URL.
    Url(UrlParts),
}

/// The spec-level shape of a classified target.
pub enum TargetV {
    /// A path that names an existing local file.
    File(Seq<char>),
    /// A well-formed remote URL.
    Url(UrlPartsV),
}

impl View for Target {
    type V = TargetV;

    open spec fn view(&self) -> TargetV {
        match self {
            Target::File(p) => TargetV::File(p@),
            Target::Url(u) => TargetV::Url(u@),
        }
    }
}

/// Why a target argument was rejected.
#[derive(Clone, Copy, Debug, PartialEq, Eq, Structural)]
pub enum TargetError {
    /// The argument was empty.
    Empty,
    /// The argument names no existing file and is not a well-formed URL.
    InvalidUrl,
}

/// Classifies the positional argument. `is_existing_file` reports whether
/// the argument names an existing regular file on the local filesystem; the
/// caller, who alone may touch the filesystem, supplies it. A non-empty
/// argument naming an existing file is a file target; otherwise it must
/// parse as a URL.
pub fn classify_target(raw: String, is_existing_file: bool) -> (r: Result<Target, TargetError>)
    ensures
        raw@.len() == 0 ==> r == Err::<Target, TargetError>(TargetError::Empty),
        raw@.len() > 0 && is_existing_file ==> (r matches Ok(t) && t@ == TargetV::File(raw@)),
        raw@.len() > 0 && !is_existing_file && url_parse_of(raw@) is Some ==> (r matches Ok(t)
            && t@ matches TargetV::Url(u) && Some(u) == url_parse_of(raw@)),
        raw@.len() > 0 && !is_existing_file && url_parse_of(raw@) is None ==> r == Err::<
            Target,
            TargetError,
        >(TargetError::InvalidUrl),
{
    if raw.as_str().is_empty() {
        Err(TargetError::Empty)
    } else if is_existing_file {
        Ok(Target::File(raw))
    } else {
        match parse_url(raw.as_str()) {
            Some(parts) => Ok(Target::Url(parts)),
            None => Err(TargetError::InvalidUrl),
        }
    }
}

/// The domain the service lives under.
pub open spec fn spec_service_domain() -> Seq<char> {
    "envs.sh"@
}

/// A URL may be managed only when its scheme is exactly `https` and its host
/// is exactly the service's domain.
pub open spec fn spec_manage_url_ok(p: UrlPartsV) -> bool {
    p.scheme == "https"@ && p.domain == Some(spec_service_domain())
}

/// Why a management URL was rejected.
#[derive(Clone, Copy, Debug, PartialEq, Eq, Structural)]
pub enum ManageUrlError {
    /// The argument was empty.
    Empty,
    /// The argument is not a well-formed URL.
    InvalidUrl,
    /// The URL is well-formed but is not a secure URL of the service.
    NotServiceUrl,
}

/// Validates the URL a management request is sent to: it is accepted exactly
/// when it is a non-empty, well-formed URL whose scheme is `https` and whose
/// host is exactly the service's domain.
pub fn validate_manage_url(raw: String) -> (r: Result<UrlParts, ManageUrlError>)
    ensures
        r matches Ok(u) ==> url_parse_of(raw@) == Some(u@) && spec_manage_url_ok(u@),
        r is Ok <==> raw@.len() > 0 && (url_parse_of(raw@) matches Some(p) && spec_manage_url_ok(
            p,
        )),
        raw@.len() == 0 ==> r == Err::<UrlParts, ManageUrlError>(ManageUrlError::Empty),
        raw@.len() > 0 && url_parse_of(raw@) is None ==> r == Err::<UrlParts, ManageUrlError>(
            ManageUrlError::InvalidUrl,
        ),
        raw@.len() > 0 && (url_parse_of(raw@) matches Some(p) && !spec_manage_url_ok(p)) ==> r
            == Err::<UrlParts, ManageUrlError>(ManageUrlError::NotServiceUrl),
{
    if raw.as_str().is_empty() {
        return Err(ManageUrlError::Empty);
    }
    match parse_url(raw.as_str()) {
        None => Err(ManageUrlError::InvalidUrl),
        Some(parts) => {
            let https = String::from_str("https");
            let service = String::from_str("envs.sh");
            let scheme_ok = parts.scheme.eq(&https);
            let domain_ok = match &parts.domain {
                Some(d) => d.eq(&service),
                None => false,
            };
            if scheme_ok && domain_ok {
                Ok(parts)
            } else {
                Err(ManageUrlError::NotServiceUrl)
            }
        },
    }
}

} // verus!
