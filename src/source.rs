//! The Image Source: from a listing response to an absolute image reference.
use vstd::prelude::*;

verus! {

/// How a tick fails.
#[derive(Clone, Copy, Debug, PartialEq, Eq, Structural)]
pub enum TickError {
    /// The source could not be reached, or answered with a non-success status.
    SourceUnavailable,
    /// The listing did not have the expected shape, or held no entry.
    MalformedResponse,
    /// The desktop refused the new background.
    ApplyFailed,
    /// The Cached Image could not be written.
    IoError,
}

/// The step of a tick at which it failed.
#[derive(Clone, Copy, Debug, PartialEq, Eq, Structural)]
pub enum TickStage {
    /// Requesting the listing.
    Fetch,
    /// Reading the listing's body.
    Parse,
    /// Taking the listing's first entry.
    NoImage,
    /// Resolving that entry against the source's base.
    Join,
    /// Downloading the image.
    Download,
    /// Writing the staged copy.
    Write,
    /// Renaming the staged copy over the Cached Image.
    Replace,
    /// Setting the desktop background.
    Apply,
}

/// The class of error that a failure at each stage belongs to.
pub open spec fn stage_error(stage: TickStage) -> TickError {
    match stage {
        TickStage::Fetch | TickStage::Download => TickError::SourceUnavailable,
        TickStage::Parse | TickStage::NoImage | TickStage::Join => TickError::MalformedResponse,
        TickStage::Write | TickStage::Replace => TickError::IoError,
        TickStage::Apply => TickError::ApplyFailed,
    }
}

/// A failed tick: where it failed, the class of the error, and the HTTP
/// status that the source answered with, where one was received.
#[derive(Clone, Copy, Debug, PartialEq, Eq)]
pub struct TickFailure {
    pub stage: TickStage,
    pub error: TickError,
    pub status: Option<u16>,
}

pub open spec fn failure(stage: TickStage, status: Option<u16>) -> TickFailure {
    TickFailure { stage, error: stage_error(stage), status }
}

/// The failure at `stage`, with its error class.
pub fn fail_at(stage: TickStage, status: Option<u16>) -> (r: TickFailure)
    ensures
        r == failure(stage, status),
{
    let error = match stage {
        TickStage::Fetch | TickStage::Download => TickError::SourceUnavailable,
        TickStage::Parse | TickStage::NoImage | TickStage::Join => TickError::MalformedResponse,
        TickStage::Write | TickStage::Replace => TickError::IoError,
        TickStage::Apply => TickError::ApplyFailed,
    };
    TickFailure { stage, error, status }
}

/// What the listing request gave.
#[derive(Debug)]
pub enum ListingOutcome {
    /// Transport failure (`None`) or this non-success status.
    Unavailable(Option<u16>),
    /// The body did not have the expected shape.
    Malformed,
    /// The image paths of the listing's entries, in order.
    Entries(Vec<String>),
}

pub open spec fn is_scheme_char(c: char) -> bool {
    ('a' <= c <= 'z') || ('A' <= c <= 'Z') || ('0' <= c <= '9') || c == '+' || c == '-' || c == '.'
}

/// An absolute URL begins with a scheme (a letter, then letters, digits,
/// `+`, `-` or `.`) and a `:`.
pub open spec fn is_absolute_url(s: Seq<char>) -> bool {
    exists|i: int|
        0 < i < s.len() && #[trigger] s[i] == ':' && (('a' <= s[0] <= 'z') || ('A' <= s[0] <= 'Z'))
            && forall|j: int| 1 <= j < i ==> is_scheme_char(#[trigger] s[j])
}

/// The serialization of `input` parsed as a URL relative to `base`, or
/// `None` where either does not parse.
pub uninterp spec fn resolved_url(base: Seq<char>, input: Seq<char>) -> Option<Seq<char>>;

pub open spec fn opt_view(s: Option<String>) -> Option<Seq<char>> {
    match s {
        Some(v) => Some(v@),
        None => None,
    }
}

/// Relies on url::Url::parse of the base and url::Url::join: the result is
/// the joined URL's serialization, which always starts with a scheme.
#[verifier::external_body]
fn join_url(base: &str, input: &str) -> (r: Option<String>)
    ensures
        opt_view(r) == resolved_url(base@, input@),
        r matches Some(u) ==> is_absolute_url(u@),
{
    url::Url::parse(base).and_then(|b| b.join(input)).ok().map(String::from)
}

pub open spec fn result_view(r: Result<String, TickFailure>) -> Result<Seq<char>, TickFailure> {
    match r {
        Ok(s) => Ok(s@),
        Err(e) => Err(e),
    }
}

/// What the listing resolves to against `base`.
pub open spec fn reference_spec(base: Seq<char>, listing: ListingOutcome) -> Result<
    Seq<char>,
    TickFailure,
> {
    match listing {
        ListingOutcome::Unavailable(status) => Err(failure(TickStage::Fetch, status)),
        ListingOutcome::Malformed => Err(failure(TickStage::Parse, None)),
        ListingOutcome::Entries(v) => if v@.len() == 0 {
            Err(failure(TickStage::NoImage, None))
        } else {
            match resolved_url(base, v@[0]@) {
                Some(u) => Ok(u),
                None => Err(failure(TickStage::Join, None)),
            }
        },
    }
}

/// The reference of the latest image: the listing's first entry resolved
/// against `base`. A listing that is missing, malformed or empty, or whose
/// first path does not resolve, is an error that names that stage, and no
/// download follows.
pub fn latest_reference(base: &str, listing: &ListingOutcome) -> (r: Result<String, TickFailure>)
    ensures
        result_view(r) == reference_spec(base@, *listing),
        r matches Ok(s) ==> is_absolute_url(s@),
{
    match listing {
        ListingOutcome::Unavailable(status) => Err(fail_at(TickStage::Fetch, *status)),
        ListingOutcome::Malformed => Err(fail_at(TickStage::Parse, None)),
        ListingOutcome::Entries(v) => {
            if v.len() == 0 {
                Err(fail_at(TickStage::NoImage, None))
            } else {
                match join_url(base, v[0].as_str()) {
                    Some(u) => Ok(u),
                    None => Err(fail_at(TickStage::Join, None)),
                }
            }
        },
    }
}

} // verus!
