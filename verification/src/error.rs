//! The kinds of failure that the updater tells apart.

use vstd::prelude::*;

verus! {

/// Why a step of the updater failed.
#[derive(Clone, Copy, Debug, PartialEq, Eq, Structural)]
pub enum ErrorKind {
    /// The configuration is missing something or contradicts itself.
    ConfigError,
    /// The address lookup could not complete its request.
    NetworkError,
    /// The address lookup answered with something that is no IPv4 address.
    ParseError,
    /// The DNS provider refused the update or could not be reached.
    ProviderError,
}

} // verus!
