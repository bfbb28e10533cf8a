//! Resolving the name this host reports itself by in alerts.
use vstd::prelude::*;

use crate::check::spec_is_success;
use crate::check::is_success;

verus! {

/// The string under the key `hostname` of the JSON object that `body` holds,
/// or `None` where `body` is no such object.
pub uninterp spec fn hostname_in_json(body: Seq<u8>) -> Option<Seq<char>>;

/// Relies on `serde_json::from_slice` (into a `serde_json::Value`), then on
/// `Value::get` and `Value::as_str`, to read the string field `hostname` of
/// the JSON object in `body`.
#[verifier::external_body]
fn parse_hostname(body: &[u8]) -> (r: Option<String>)
    ensures
        match r {
            Some(h) => hostname_in_json(body@) == Some(h@),
            None => hostname_in_json(body@) is None,
        },
{
    let value: serde_json::Value = serde_json::from_slice(body).ok()?;
    value.get("hostname").and_then(|h| h.as_str()).map(|h| h.to_string())
}

/// What the remote "what is my hostname" lookup came back with.
#[derive(Debug, PartialEq, Eq)]
pub enum LookupOutcome {
    /// A response, with its status and its whole body.
    Response { status: u16, body: Vec<u8> },
    /// The request failed below HTTP.
    TransportError,
}

/// The placeholder reported when no name could be found.
pub open spec fn unknown_name() -> Seq<char> {
    seq!['U', 'N', 'K', 'N', 'O', 'W', 'N']
}

/// A name that is present and not empty.
pub open spec fn is_name(n: Option<Seq<char>>) -> bool {
    n matches Some(h) && h.len() > 0
}

/// The view of an optional string.
pub open spec fn opt_view(s: Option<String>) -> Option<Seq<char>> {
    match s {
        Some(h) => Some(h@),
        None => None,
    }
}

/// The name that the remote lookup gives: the `hostname` field of a
/// successful response's JSON body where it is not empty, else the
/// placeholder. `None` stands for a lookup that was never made.
pub open spec fn remote_name(remote: Option<LookupOutcome>) -> Seq<char> {
    match remote {
        Some(LookupOutcome::Response { status, body }) => if spec_is_success(status) && is_name(
            hostname_in_json(body@),
        ) {
            hostname_in_json(body@).unwrap()
        } else {
            unknown_name()
        },
        _ => unknown_name(),
    }
}

/// The resolved name: the local system name where there is a non-empty one,
/// else what the remote lookup gives.
pub open spec fn resolved_name(local: Option<String>, remote: Option<LookupOutcome>) -> Seq<char> {
    if is_name(opt_view(local)) {
        local.unwrap()@
    } else {
        remote_name(remote)
    }
}

/// Whether `name` holds a non-empty name.
pub fn has_name(name: &Option<String>) -> (r: bool)
    ensures
        r == is_name(opt_view(*name)),
{
    match name {
        Some(h) => h.as_str().unicode_len() > 0,
        None => false,
    }
}

/// Whether resolution has to fall back to the remote lookup: there is no
/// local name, or it is empty.
pub fn needs_remote_lookup(local: &Option<String>) -> (r: bool)
    ensures
        r == !is_name(opt_view(*local)),
{
    !has_name(local)
}

/// The placeholder name, `UNKNOWN`.
pub fn unknown() -> (r: String)
    ensures
        r@ == unknown_name(),
{
    let r = String::from_str("UNKNOWN");
    proof {
        reveal_strlit("UNKNOWN");
        assert(r@ =~= unknown_name());
    }
    r
}

/// The name that a parsed lookup body gives: the `hostname` field where the
/// body had a non-empty one, else the placeholder.
pub fn hostname_or_unknown(parsed: Option<String>) -> (r: String)
    ensures
        r@ == if is_name(opt_view(parsed)) {
            parsed.unwrap()@
        } else {
            unknown_name()
        },
        r@.len() > 0,
{
    if has_name(&parsed) {
        match parsed {
            Some(h) => h,
            None => unknown(),
        }
    } else {
        unknown()
    }
}

/// The name that a remote lookup yields. Never fails and is never empty: a
/// transport error, a non-success status or a body without a non-empty
/// `hostname` string all give the placeholder.
pub fn hostname_from_lookup(remote: Option<LookupOutcome>) -> (r: String)
    ensures
        r@ == remote_name(remote),
        r@.len() > 0,
{
    match remote {
        Some(LookupOutcome::Response { status, body }) => {
            if is_success(status) {
                hostname_or_unknown(parse_hostname(body.as_slice()))
            } else {
                unknown()
            }
        },
        _ => unknown(),
    }
}

/// Resolves the host identity from the local system name, if any, and the
/// outcome of the remote lookup, which is consulted only when there is no
/// non-empty local name. The result is never empty.
pub fn get_hostname(local: Option<String>, remote: Option<LookupOutcome>) -> (r: String)
    ensures
        r@ == resolved_name(local, remote),
        r@.len() > 0,
{
    if has_name(&local) {
        match local {
            Some(h) => h,
            None => hostname_from_lookup(remote),
        }
    } else {
        hostname_from_lookup(remote)
    }
}

/// The resolved name is never empty, whatever the local name and the remote
/// lookup gave.
pub proof fn lemma_resolved_name_nonempty(local: Option<String>, remote: Option<LookupOutcome>)
    ensures
        resolved_name(local, remote).len() > 0,
{
}

/// With no usable local name (none, or an empty one) and a remote lookup that
/// failed (not made, a transport error, a non-success status, or a body
/// without a non-empty `hostname` string), the resolved name is exactly the
/// placeholder.
pub proof fn lemma_both_fail_gives_placeholder(local: Option<String>, remote: Option<LookupOutcome>)
    requires
        !is_name(opt_view(local)),
        match remote {
            Some(LookupOutcome::Response { status, body }) =>
                !spec_is_success(status) || !is_name(hostname_in_json(body@)),
            _ => true,
        },
    ensures
        resolved_name(local, remote) == unknown_name(),
{
}

} // verus!
