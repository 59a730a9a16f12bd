//! The upstream target: how the address given at startup is taken apart,
//! and which scheme, host and port requests are forwarded to.

use vstd::prelude::*;
use vstd::string::*;

use crate::message::{UpstreamTarget, UpstreamTargetView};
use crate::text::same_str;

verus! {

/// The address on which the capture side listens unless told otherwise.
pub const DEFAULT_LISTEN: &'static str = "127.0.0.1:6677";

/// Seconds between two flushes of the log.
pub const FLUSH_INTERVAL_SECS: u64 = 5;

/// The parts of an address: its scheme where it has one, and, where it has
/// an authority, the host of that and the port where one is given.
pub type AddressParts = (Option<String>, Option<(String, Option<u16>)>);

/// The parts of an address, as plain mathematical values.
pub type AddressPartsView = (Option<Seq<char>>, Option<(Seq<char>, Option<u16>)>);

/// What `hyper::Uri` makes of an address: nothing where it does not parse,
/// else its parts.
pub uninterp spec fn uri_parts(address: Seq<char>) -> Option<AddressPartsView>;

/// View of the parts of an address.
pub open spec fn parts_view(parts: AddressParts) -> AddressPartsView {
    (
        match parts.0 {
            Some(scheme) => Some(scheme@),
            None => None,
        },
        match parts.1 {
            Some((host, port)) => Some((host@, port)),
            None => None,
        },
    )
}

/// View of what parsing an address gave.
pub open spec fn parsed_view(parsed: Option<AddressParts>) -> Option<AddressPartsView> {
    match parsed {
        Some(parts) => Some(parts_view(parts)),
        None => None,
    }
}

/// Parses `address` as a `hyper::Uri` and reads from it `scheme_str`, and of
/// its `authority` the `host` and `port_u16`. The result is the one that
/// `uri_parts` names; nothing else is claimed of it.
#[verifier::external_body]
pub(crate) fn parse_address(address: &str) -> (parsed: Option<AddressParts>)
    ensures
        parsed_view(parsed) == uri_parts(address@),
{
    match address.parse::<hyper::Uri>() {
        Ok(uri) => Some(
            (
                uri.scheme_str().map(|s| s.to_string()),
                uri.authority().map(|a| (a.host().to_string(), a.port_u16())),
            ),
        ),
        Err(_) => None,
    }
}

/// Why an address cannot serve as the upstream target.
#[derive(Clone, Copy, Debug, PartialEq, Eq, Structural)]
pub enum TargetError {
    /// It does not parse as an address.
    InvalidUrl,
    /// It names no host.
    MissingAuthority,
    /// It names a host but no scheme.
    MissingScheme,
}

/// The port that a scheme implies: 443 for `https`, 80 for any other.
pub open spec fn default_port(scheme: Seq<char>) -> u16 {
    if scheme == seq!['h', 't', 't', 'p', 's'] {
        443
    } else {
        80
    }
}

/// Finds the port that a scheme implies.
pub fn implied_port(scheme: &str) -> (port: u16)
    ensures
        port == default_port(scheme@),
{
    proof {
        reveal_strlit("https");
        assert("https"@ =~= seq!['h', 't', 't', 'p', 's']);
    }
    if same_str(scheme, "https") {
        443
    } else {
        80
    }
}

/// The target that the parts of an address give: the scheme and host as
/// they stand, and the port that is given or else the one that the scheme
/// implies. An address that did not parse, or lacks authority or scheme,
/// gives none.
pub open spec fn resolved(parsed: Option<AddressPartsView>) -> Result<
    UpstreamTargetView,
    TargetError,
> {
    match parsed {
        None => Err(TargetError::InvalidUrl),
        Some((_, None)) => Err(TargetError::MissingAuthority),
        Some((None, Some(_))) => Err(TargetError::MissingScheme),
        Some((Some(scheme), Some((host, port)))) => Ok(
            UpstreamTargetView {
                scheme,
                host,
                port: match port {
                    Some(p) => p,
                    None => default_port(scheme),
                },
            },
        ),
    }
}

/// View of the outcome of resolving a target.
pub open spec fn outcome_view(outcome: Result<UpstreamTarget, TargetError>) -> Result<
    UpstreamTargetView,
    TargetError,
> {
    match outcome {
        Ok(target) => Ok(target@),
        Err(e) => Err(e),
    }
}

/// Finds the upstream target that the parts of an address give.
pub fn resolve_target(parsed: Option<AddressParts>) -> (outcome: Result<
    UpstreamTarget,
    TargetError,
>)
    ensures
        outcome_view(outcome) == resolved(parsed_view(parsed)),
{
    match parsed {
        None => Err(TargetError::InvalidUrl),
        Some((_, None)) => Err(TargetError::MissingAuthority),
        Some((None, Some(_))) => Err(TargetError::MissingScheme),
        Some((Some(scheme), Some((host, port)))) => {
            let port = match port {
                Some(p) => p,
                None => implied_port(scheme.as_str()),
            };
            Ok(UpstreamTarget { scheme, host, port })
        },
    }
}

/// Finds the upstream target that an address names.
pub fn parse_target(address: &str) -> (outcome: Result<UpstreamTarget, TargetError>)
    ensures
        outcome_view(outcome) == resolved(uri_parts(address@)),
{
    resolve_target(parse_address(address))
}

} // verus!
