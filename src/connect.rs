//! What a connection is made with: the engine endpoint and the settings that
//! the connection options resolve to.
use vstd::prelude::*;
use crate::capabilities::{
    Capabilities, CapabilityError, Options, config_lists_invalid, config_valid,
    default_capabilities, resolved,
};
use crate::value::text;

verus! {

/// Whether `s` begins with `p`.
pub open spec fn starts_with(s: Seq<char>, p: Seq<char>) -> bool {
    p.len() <= s.len() && s.take(p.len() as int) == p
}

fn has_prefix(s: &str, p: &str) -> (r: bool)
    ensures
        r == starts_with(s@, p@),
{
    let n = s.unicode_len();
    let m = p.unicode_len();
    if m > n {
        return false;
    }
    let mut i: usize = 0;
    while i < m
        invariant
            n == s@.len(),
            m == p@.len(),
            m <= n,
            i <= m,
            forall|j: int| 0 <= j < i ==> s@[j] == p@[j],
        decreases m - i,
    {
        if s.get_char(i) != p.get_char(i) {
            proof {
                assert(s@.take(m as int)[i as int] != p@[i as int]);
            }
            return false;
        }
        i = i + 1;
    }
    proof {
        assert(s@.take(m as int) =~= p@);
    }
    true
}

/// The endpoint handed to the engine: any `mem:` endpoint is the in-process,
/// non-persistent engine `memory`; others are passed as they are.
pub fn engine_endpoint(endpoint: &str) -> (r: String)
    ensures
        starts_with(endpoint@, "mem:"@) ==> r@ == "memory"@,
        !starts_with(endpoint@, "mem:"@) ==> r@ == endpoint@,
{
    if has_prefix(endpoint, "mem:") {
        text("memory")
    } else {
        text(endpoint)
    }
}

/// The settings of a connection.
#[derive(Debug, Clone)]
pub struct Settings {
    pub strict: bool,
    pub query_timeout_secs: Option<u64>,
    pub transaction_timeout_secs: Option<u64>,
    pub capabilities: Capabilities,
}

/// A timeout in seconds, widened.
pub open spec fn seconds(t: Option<u8>) -> Option<u64> {
    match t {
        Some(s) => Some(s as u64),
        None => None,
    }
}

fn widen(t: Option<u8>) -> (r: Option<u64>)
    ensures
        r == seconds(t),
{
    match t {
        Some(s) => Some(s as u64),
        None => None,
    }
}

/// Whether the capability part of the options, if any, resolves.
pub open spec fn options_valid(options: Option<Options>) -> bool {
    options matches Some(o) ==> (o.capabilities matches Some(c) ==> config_valid(c))
}

/// The settings that valid options stand for: without options, or for any
/// part left out, the defaults (not strict, no timeouts, default capabilities).
pub open spec fn settings_of(options: Option<Options>) -> Settings {
    match options {
        None => Settings {
            strict: false,
            query_timeout_secs: None,
            transaction_timeout_secs: None,
            capabilities: default_capabilities(),
        },
        Some(o) => Settings {
            strict: match o.strict {
                Some(b) => b,
                None => false,
            },
            query_timeout_secs: seconds(o.query_timeout),
            transaction_timeout_secs: seconds(o.transaction_timeout),
            capabilities: match o.capabilities {
                Some(c) => resolved(c),
                None => default_capabilities(),
            },
        },
    }
}

/// Resolves connection options into settings. A capability configuration
/// that names a malformed target fails the whole connection.
pub fn configure(options: Option<Options>) -> (r: Result<Settings, CapabilityError>)
    ensures
        options_valid(options) ==> (r matches Ok(s) && s == settings_of(options)),
        !options_valid(options) ==> (r matches Err(CapabilityError::InvalidTarget { category, name })
            && config_lists_invalid(options->0.capabilities->0, category, name@)),
{
    match options {
        None => Ok(
            Settings {
                strict: false,
                query_timeout_secs: None,
                transaction_timeout_secs: None,
                capabilities: Capabilities::default(),
            },
        ),
        Some(o) => {
            let capabilities = match o.capabilities {
                Some(c) => match Capabilities::resolve(c) {
                    Ok(caps) => caps,
                    Err(e) => {
                        return Err(e);
                    },
                },
                None => Capabilities::default(),
            };
            Ok(
                Settings {
                    strict: match o.strict {
                        Some(b) => b,
                        None => false,
                    },
                    query_timeout_secs: widen(o.query_timeout),
                    transaction_timeout_secs: widen(o.transaction_timeout),
                    capabilities,
                },
            )
        },
    }
}

} // verus!
