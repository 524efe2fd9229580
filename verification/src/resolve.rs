//! The identifier resolver: from an optional entry identifier to the exact
//! resource URL to request.

use vstd::prelude::*;
use vstd::string::StringExecFns;
use crate::text::{spec_digits, u64_to_string};

verus! {

/// What one invocation requests: the latest entry, or one specific entry
/// identified by a positive integer. Exactly one form is active.
#[derive(Clone, Copy, Debug, PartialEq, Eq, Structural)]
pub enum RequestTarget {
    Latest,
    Specific(usize),
}

impl RequestTarget {
    /// A target is well formed when a specific entry's identifier is positive.
    pub open spec fn wf(&self) -> bool {
        match *self {
            RequestTarget::Latest => true,
            RequestTarget::Specific(n) => n > 0,
        }
    }

    /// Chooses the target for a caller-supplied identifier: zero means the
    /// latest entry, any positive value means that specific entry.
    pub fn from_num(num: usize) -> (t: RequestTarget)
        ensures
            t.wf(),
            num == 0 <==> t is Latest,
            num > 0 ==> t == RequestTarget::Specific(num),
    {
        if num == 0 {
            RequestTarget::Latest
        } else {
            RequestTarget::Specific(num)
        }
    }
}

/// The exact resource URL for a target: the service host followed by
/// `/info.0.json`, with the decimal identifier as an extra path segment when
/// a specific entry is requested.
pub open spec fn spec_url(t: RequestTarget) -> Seq<char> {
    match t {
        RequestTarget::Latest => "https://xkcd.com"@ + "/info.0.json"@,
        RequestTarget::Specific(n) => "https://xkcd.com"@ + "/"@ + spec_digits(n as int)
            + "/info.0.json"@,
    }
}

/// Produces the resource URL to request for the given target. No validation
/// of the identifier's range happens here; a nonexistent identifier is
/// discovered only by the later stages. No side effects.
pub fn resolve_url(t: &RequestTarget) -> (u: String)
    ensures
        u@ == spec_url(*t),
{
    let mut u = String::from_str("https://xkcd.com");
    match t {
        RequestTarget::Latest => {
            u.append("/info.0.json");
        },
        RequestTarget::Specific(n) => {
            u.append("/");
            let digits = u64_to_string(*n as u64);
            u.append(digits.as_str());
            u.append("/info.0.json");
        },
    }
    u
}

} // verus!
