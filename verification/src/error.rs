use vstd::prelude::*;

verus! {

/// The SDK could not build a client for a connection target.
#[derive(Clone, Debug, PartialEq, Eq)]
pub struct ConstructError {
    pub message: String,
}

/// A single height query failed.
#[derive(Clone, Debug, PartialEq, Eq)]
pub struct ProbeError {
    pub message: String,
}

/// The persisted preference could not be read or written.
#[derive(Clone, Debug, PartialEq, Eq)]
pub struct StorageError {
    pub message: String,
}

/// Why a pair of tags names no connection target.
#[derive(Clone, Copy, Debug, PartialEq, Eq, Structural)]
pub enum ResolveError {
    /// The network tag is outside the supported set.
    UnsupportedNetwork,
    /// The provider tag is outside the supported set.
    UnsupportedProvider,
}

impl ResolveError {
    /// The text of `message`.
    pub open spec fn spec_message(self) -> Seq<char> {
        match self {
            ResolveError::UnsupportedNetwork => "Invalid network"@,
            ResolveError::UnsupportedProvider => "Invalid base_url"@,
        }
    }

    /// A short description for the caller to show.
    pub fn message(self) -> (text: &'static str)
        ensures
            text@ == self.spec_message(),
    {
        match self {
            ResolveError::UnsupportedNetwork => "Invalid network",
            ResolveError::UnsupportedProvider => "Invalid base_url",
        }
    }
}

/// Why a switch was abandoned. Whenever a switch ends in one of these, the
/// client that was current before the switch is still the current one.
#[derive(Clone, Debug, PartialEq, Eq)]
pub enum SwitchError {
    /// The requested tags name no target.
    Resolve(ResolveError),
    /// The client for the new target could not be built.
    Construct(ConstructError),
    /// The persisted preference could not be read.
    Storage(StorageError),
}

/// Why a health check ended without a verdict being reported.
#[derive(Clone, Debug, PartialEq, Eq)]
pub enum HealthError {
    /// No probing client could be built for the candidate endpoint.
    Construct(ConstructError),
    /// The persisted preference could not be read or written.
    Storage(StorageError),
}

} // verus!
