//! The fixed allow-list of probe targets, and the validation step that
//! stands between a caller-supplied string and any network activity.
//!
//! Validation is a security boundary: a probe may only ever be aimed at
//! one of the six fixed identifiers below, matched case-sensitively and
//! exactly, so the probing primitive cannot be turned into an open
//! network scanner. The scheme is fixed to `https://` here and never
//! taken from the caller.

use vstd::prelude::*;
use vstd::string::StringExecFns;

verus! {

/// Membership in the fixed allow-list: four IP-address literals and two
/// domain names, matched exactly and case-sensitively.
pub open spec fn allowed(target: Seq<char>) -> bool {
    ||| target == "8.8.8.8"@
    ||| target == "1.1.1.1"@
    ||| target == "9.9.9.9"@
    ||| target == "208.67.222.222"@
    ||| target == "www.google.com"@
    ||| target == "www.cloudflare.com"@
}

/// The fully-qualified address a valid target is probed at: the fixed
/// `https://` scheme followed by the allow-listed identifier.
pub open spec fn probe_url(target: Seq<char>) -> Seq<char> {
    "https://"@ + target
}

/// The message carried by a validation failure; it names the rejected
/// value verbatim.
pub open spec fn rejection_message(target: Seq<char>) -> Seq<char> {
    "Target '"@ + target + "' not in whitelist"@
}

/// Exact-match membership test against the allow-list.
pub fn is_allowed(target: &str) -> (b: bool)
    ensures
        b == allowed(target@),
{
    let t = target.to_owned();
    t == String::from_str("8.8.8.8") || t == String::from_str("1.1.1.1") || t == String::from_str(
        "9.9.9.9",
    ) || t == String::from_str("208.67.222.222") || t == String::from_str("www.google.com") || t
        == String::from_str("www.cloudflare.com")
}

/// The check every probe request passes before any network activity:
/// an allow-listed target yields the full `https://` address to probe,
/// any other string yields the rejection message and nothing is to be
/// sent.
pub fn validate_target(target: &str) -> (r: Result<String, String>)
    ensures
        r is Ok <==> allowed(target@),
        r matches Ok(url) ==> url@ == probe_url(target@),
        r matches Err(msg) ==> msg@ == rejection_message(target@),
{
    if is_allowed(target) {
        Ok(String::from_str("https://").concat(target))
    } else {
        Err(String::from_str("Target '").concat(target).concat("' not in whitelist"))
    }
}

/// The allow-list's contents as a vector: exactly the six fixed
/// identifiers, each of them allowed, and every allowed target among
/// them.
pub fn allowed_targets() -> (v: Vec<String>)
    ensures
        v@.len() == 6,
        forall|i: int| 0 <= i < v@.len() ==> allowed(#[trigger] v@[i]@),
        forall|t: Seq<char>| allowed(t) ==> exists|i: int| 0 <= i < v@.len() && #[trigger] v@[i]@ == t,
{
    let mut v: Vec<String> = Vec::new();
    v.push(String::from_str("8.8.8.8"));
    v.push(String::from_str("1.1.1.1"));
    v.push(String::from_str("9.9.9.9"));
    v.push(String::from_str("208.67.222.222"));
    v.push(String::from_str("www.google.com"));
    v.push(String::from_str("www.cloudflare.com"));
    proof {
        assert forall|t: Seq<char>| allowed(t) implies exists|i: int|
            0 <= i < v@.len() && #[trigger] v@[i]@ == t by {
            if t == "8.8.8.8"@ {
                assert(v@[0]@ == t);
            } else if t == "1.1.1.1"@ {
                assert(v@[1]@ == t);
            } else if t == "9.9.9.9"@ {
                assert(v@[2]@ == t);
            } else if t == "208.67.222.222"@ {
                assert(v@[3]@ == t);
            } else if t == "www.google.com"@ {
                assert(v@[4]@ == t);
            } else {
                assert(v@[5]@ == t);
            }
        }
    }
    v
}

} // verus!
