//! The ways one reconciliation pass can fail, and how each reads.
use vstd::prelude::*;
use crate::text::{decimal, join, join_strings, to_decimal};

verus! {

/// One entry of the provider's error list.
#[derive(Debug, Clone, PartialEq, Eq)]
pub struct ApiErrorEntry {
    pub code: u32,
    pub message: String,
}

/// A failure of one reconciliation pass.
#[derive(Debug, Clone, PartialEq, Eq)]
pub enum UpdateError {
    /// The request did not get a response (connection, timeout).
    Transport(String),
    /// The provider answered with a non-success status and its error list.
    Api { status: u16, errors: Vec<ApiErrorEntry> },
    /// No zone matches the domain or any of its ancestors.
    NoZoneFound,
    /// More than one zone matches.
    AmbiguousZone,
    /// More than one record of the domain and type exists.
    MultipleRecordsFound,
    /// The public address could not be fetched or read.
    Lookup(String),
    /// The network watcher could not subscribe to change notifications.
    Subscription(String),
}

/// How one provider error entry reads: its message, then its code in parentheses.
pub open spec fn reason_text(e: ApiErrorEntry) -> Seq<char> {
    e.message@ + " ("@ + decimal(e.code as nat) + ")"@
}

/// How a provider error response reads: its status, then each entry, separated by ", ".
pub open spec fn api_error_text(status: u16, errors: Seq<ApiErrorEntry>) -> Seq<char> {
    "cloudflare api error "@ + decimal(status as nat) + ": "@ + join(
        errors.map_values(|e: ApiErrorEntry| reason_text(e)),
        ", "@,
    )
}

/// How an error reads.
pub open spec fn error_text(e: UpdateError) -> Seq<char> {
    match e {
        UpdateError::Transport(t) => "http error: "@ + t@,
        UpdateError::Api { status, errors } => api_error_text(status, errors@),
        UpdateError::NoZoneFound => "no zone found"@,
        UpdateError::AmbiguousZone => "multiple zones found"@,
        UpdateError::MultipleRecordsFound => "multiple dns records found"@,
        UpdateError::Lookup(t) => "ip lookup failed: "@ + t@,
        UpdateError::Subscription(t) => "network change subscription failed: "@ + t@,
    }
}

/// The text of one provider error entry.
pub fn reason(e: &ApiErrorEntry) -> (r: String)
    ensures
        r@ == reason_text(*e),
{
    let mut r = e.message.clone();
    r.append(" (");
    let code = to_decimal(e.code);
    r.append(code.as_str());
    r.append(")");
    r
}

/// The text of a provider error response.
pub fn api_error_message(status: u16, errors: &Vec<ApiErrorEntry>) -> (r: String)
    ensures
        r@ == api_error_text(status, errors@),
{
    let mut reasons: Vec<String> = Vec::new();
    let mut i: usize = 0;
    while i < errors.len()
        invariant
            i <= errors.len(),
            reasons@.len() == i,
            forall|j: int| 0 <= j < i ==> (#[trigger] reasons@[j])@ == reason_text(errors@[j]),
        decreases errors.len() - i,
    {
        let t = reason(&errors[i]);
        reasons.push(t);
        i = i + 1;
    }
    let joined = join_strings(&reasons, ", ");
    assert(reasons@.map_values(|s: String| s@) =~= errors@.map_values(
        |e: ApiErrorEntry| reason_text(e),
    ));
    let mut r = String::from_str("cloudflare api error ");
    let s = to_decimal(status as u32);
    r.append(s.as_str());
    r.append(": ");
    r.append(joined.as_str());
    r
}

impl UpdateError {
    /// How the error reads.
    pub fn message(&self) -> (r: String)
        ensures
            r@ == error_text(*self),
    {
        match self {
            UpdateError::Transport(t) => String::from_str("http error: ").concat(t.as_str()),
            UpdateError::Api { status, errors } => api_error_message(*status, errors),
            UpdateError::NoZoneFound => String::from_str("no zone found"),
            UpdateError::AmbiguousZone => String::from_str("multiple zones found"),
            UpdateError::MultipleRecordsFound => String::from_str("multiple dns records found"),
            UpdateError::Lookup(t) => String::from_str("ip lookup failed: ").concat(t.as_str()),
            UpdateError::Subscription(t) => String::from_str(
                "network change subscription failed: ",
            ).concat(t.as_str()),
        }
    }
}

} // verus!
