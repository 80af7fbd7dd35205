use crate::error::ResolveError;
use crate::text::same_text;
use vstd::prelude::*;
use vstd::string::*;

verus! {

/// The logical networks a client can be switched to. The set is closed: a new
/// network is a new variant here and a new arm in `TargetView::of`.
#[derive(Clone, Copy, Debug, PartialEq, Eq, Structural)]
pub enum Network {
    Testnet3,
}

impl Network {
    /// The tag that names this network.
    pub open spec fn spec_tag(self) -> Seq<char> {
        match self {
            Network::Testnet3 => "testnet3"@,
        }
    }

    /// The network that a tag names, if any.
    pub open spec fn spec_from_tag(tag: Seq<char>) -> Option<Network> {
        if tag == "testnet3"@ {
            Some(Network::Testnet3)
        } else {
            None
        }
    }

    /// The network chosen when nothing was persisted.
    pub open spec fn spec_canonical() -> Network {
        Network::Testnet3
    }

    /// The network chosen when nothing was persisted.
    pub fn canonical() -> (network: Network)
        ensures
            network == Network::spec_canonical(),
    {
        Network::Testnet3
    }

    /// The tag that names this network.
    pub fn tag(self) -> (tag: &'static str)
        ensures
            tag@ == self.spec_tag(),
    {
        match self {
            Network::Testnet3 => "testnet3",
        }
    }

    /// The network that `tag` names, if any.
    pub fn from_tag(tag: &str) -> (network: Option<Network>)
        ensures
            network == Network::spec_from_tag(tag@),
    {
        if same_text(tag, "testnet3") {
            Some(Network::Testnet3)
        } else {
            None
        }
    }
}

/// The upstream operators that serve a network.
#[derive(Clone, Copy, Debug, PartialEq, Eq, Structural)]
pub enum Provider {
    /// The Obscura relay, reached with an API key.
    Obscura,
    /// The public Aleo explorer.
    Aleo,
}

impl Provider {
    /// The tag under which this provider is persisted.
    pub open spec fn spec_tag(self) -> Seq<char> {
        match self {
            Provider::Obscura => "obscura"@,
            Provider::Aleo => "aleo"@,
        }
    }

    /// The provider that a tag names, if any.
    pub open spec fn spec_from_tag(tag: Seq<char>) -> Option<Provider> {
        if tag == "obscura"@ {
            Some(Provider::Obscura)
        } else if tag == "aleo"@ {
            Some(Provider::Aleo)
        } else {
            None
        }
    }

    /// The provider chosen when nothing was persisted.
    pub open spec fn spec_preset() -> Provider {
        Provider::Obscura
    }

    /// The provider that is preferred once an endpoint is found stalled.
    pub open spec fn spec_fallback() -> Provider {
        Provider::Obscura
    }

    /// The provider chosen when nothing was persisted.
    pub fn preset() -> (provider: Provider)
        ensures
            provider == Provider::spec_preset(),
    {
        Provider::Obscura
    }

    /// The provider that is preferred once an endpoint is found stalled.
    pub fn fallback() -> (provider: Provider)
        ensures
            provider == Provider::spec_fallback(),
    {
        Provider::Obscura
    }

    /// The tag under which this provider is persisted.
    pub fn tag(self) -> (tag: &'static str)
        ensures
            tag@ == self.spec_tag(),
    {
        match self {
            Provider::Obscura => "obscura",
            Provider::Aleo => "aleo",
        }
    }

    /// The provider that `tag` names, if any.
    pub fn from_tag(tag: &str) -> (provider: Option<Provider>)
        ensures
            provider == Provider::spec_from_tag(tag@),
    {
        if same_text(tag, "obscura") {
            Some(Provider::Obscura)
        } else if same_text(tag, "aleo") {
            Some(Provider::Aleo)
        } else {
            None
        }
    }
}

/// What a connection target holds, as text.
pub struct TargetView {
    pub base_url: Seq<char>,
    pub chain_id: Seq<char>,
}

impl TargetView {
    /// The Obscura relay for the main network.
    pub open spec fn mainnet(api_key: Seq<char>) -> TargetView {
        TargetView {
            base_url: "https://aleo-mainnet.obscura.build/v1/"@ + api_key,
            chain_id: "mainnet"@,
        }
    }

    /// The Obscura relay for the development network.
    pub open spec fn devnet(api_key: Seq<char>) -> TargetView {
        TargetView {
            base_url: "https://aleo-devnet.obscura.build/v1/"@ + api_key,
            chain_id: "devnet"@,
        }
    }

    /// The Obscura relay for the third test network.
    pub open spec fn testnet3(api_key: Seq<char>) -> TargetView {
        TargetView {
            base_url: "https://aleo-testnet3.obscura.build/v1/"@ + api_key,
            chain_id: "testnet3"@,
        }
    }

    /// The public explorer, which serves the third test network.
    pub open spec fn explorer() -> TargetView {
        TargetView { base_url: "https://api.explorer.aleo.org/v1"@, chain_id: "testnet3"@ }
    }

    /// The target of a network as one provider serves it.
    pub open spec fn of(network: Network, provider: Provider, api_key: Seq<char>) -> TargetView {
        match (network, provider) {
            (Network::Testnet3, Provider::Obscura) => TargetView::testnet3(api_key),
            (Network::Testnet3, Provider::Aleo) => TargetView::explorer(),
        }
    }
}

/// Where a client connects: a base URL and the identifier of the chain.
/// Once built, a target never changes.
#[derive(Clone, Debug, PartialEq, Eq)]
pub struct ConnectionTarget {
    base_url: String,
    chain_id: String,
}

impl View for ConnectionTarget {
    type V = TargetView;

    closed spec fn view(&self) -> TargetView {
        TargetView { base_url: self.base_url@, chain_id: self.chain_id@ }
    }
}

impl ConnectionTarget {
    /// The address that requests go to.
    pub fn base_url(&self) -> (url: &str)
        ensures
            url@ == self@.base_url,
    {
        self.base_url.as_str()
    }

    /// The identifier of the chain that the address serves.
    pub fn chain_id(&self) -> (id: &str)
        ensures
            id@ == self@.chain_id,
    {
        self.chain_id.as_str()
    }

    /// The Obscura relay for the main network, reached with `api_key`.
    pub fn mainnet(api_key: &str) -> (target: ConnectionTarget)
        ensures
            target@ == TargetView::mainnet(api_key@),
    {
        ConnectionTarget {
            base_url: String::from_str("https://aleo-mainnet.obscura.build/v1/").concat(api_key),
            chain_id: String::from_str("mainnet"),
        }
    }

    /// The Obscura relay for the development network, reached with `api_key`.
    pub fn devnet(api_key: &str) -> (target: ConnectionTarget)
        ensures
            target@ == TargetView::devnet(api_key@),
    {
        ConnectionTarget {
            base_url: String::from_str("https://aleo-devnet.obscura.build/v1/").concat(api_key),
            chain_id: String::from_str("devnet"),
        }
    }

    /// The Obscura relay for the third test network, reached with `api_key`.
    pub fn testnet3(api_key: &str) -> (target: ConnectionTarget)
        ensures
            target@ == TargetView::testnet3(api_key@),
    {
        ConnectionTarget {
            base_url: String::from_str("https://aleo-testnet3.obscura.build/v1/").concat(api_key),
            chain_id: String::from_str("testnet3"),
        }
    }

    /// The public explorer for the third test network.
    pub fn explorer() -> (target: ConnectionTarget)
        ensures
            target@ == TargetView::explorer(),
    {
        ConnectionTarget {
            base_url: String::from_str("https://api.explorer.aleo.org/v1"),
            chain_id: String::from_str("testnet3"),
        }
    }

    /// The target of `network` as `provider` serves it.
    pub fn of(network: Network, provider: Provider, api_key: &str) -> (target: ConnectionTarget)
        ensures
            target@ == TargetView::of(network, provider, api_key@),
    {
        match network {
            Network::Testnet3 => match provider {
                Provider::Obscura => ConnectionTarget::testnet3(api_key),
                Provider::Aleo => ConnectionTarget::explorer(),
            },
        }
    }
}

/// What `resolve` yields for a pair of tags: the target that the pair names,
/// `UnsupportedNetwork` for a network tag outside the supported set, and
/// `UnsupportedProvider` for a provider tag outside it. The network is
/// looked at first.
pub open spec fn spec_resolve(network: Seq<char>, provider: Seq<char>, api_key: Seq<char>) -> Result<
    TargetView,
    ResolveError,
> {
    match Network::spec_from_tag(network) {
        None => Err(ResolveError::UnsupportedNetwork),
        Some(n) => match Provider::spec_from_tag(provider) {
            None => Err(ResolveError::UnsupportedProvider),
            Some(p) => Ok(TargetView::of(n, p, api_key)),
        },
    }
}

/// A resolver's answer with the target taken by its view.
pub open spec fn resolution(answer: Result<ConnectionTarget, ResolveError>) -> Result<
    TargetView,
    ResolveError,
> {
    match answer {
        Ok(target) => Ok(target@),
        Err(e) => Err(e),
    }
}

/// Maps a network tag and a provider tag to the target they name. It reads
/// nothing but its arguments and changes nothing.
pub fn resolve(network: &str, provider: &str, api_key: &str) -> (answer: Result<
    ConnectionTarget,
    ResolveError,
>)
    ensures
        resolution(answer) == spec_resolve(network@, provider@, api_key@),
        Network::spec_from_tag(network@) is None ==> answer == Err::<ConnectionTarget, ResolveError>(
            ResolveError::UnsupportedNetwork,
        ),
{
    match Network::from_tag(network) {
        None => Err(ResolveError::UnsupportedNetwork),
        Some(n) => match Provider::from_tag(provider) {
            None => Err(ResolveError::UnsupportedProvider),
            Some(p) => Ok(ConnectionTarget::of(n, p, api_key)),
        },
    }
}

/// The target of the client for the canonical network, as the persisted
/// provider tag selects it.
pub fn setup_client(persisted_provider: &str, api_key: &str) -> (answer: Result<
    ConnectionTarget,
    ResolveError,
>)
    ensures
        resolution(answer) == spec_resolve(
            Network::spec_canonical().spec_tag(),
            persisted_provider@,
            api_key@,
        ),
{
    resolve(Network::canonical().tag(), persisted_provider, api_key)
}

/// The target of the Obscura client for the canonical network.
pub fn setup_obscura_client(api_key: &str) -> (target: ConnectionTarget)
    ensures
        target@ == TargetView::of(Network::spec_canonical(), Provider::Obscura, api_key@),
{
    ConnectionTarget::of(Network::canonical(), Provider::Obscura, api_key)
}

/// Every tag names the network or provider it was taken from, and no two
/// networks or providers share a tag.
pub proof fn tags_round_trip(network: Network, provider: Provider)
    ensures
        Network::spec_from_tag(network.spec_tag()) == Some(network),
        Provider::spec_from_tag(provider.spec_tag()) == Some(provider),
{
    reveal_strlit("obscura");
    reveal_strlit("aleo");
    assert("obscura"@.len() == 7);
    assert("aleo"@.len() == 4);
}

/// Resolution is a function of the tags and the key: whatever two calls of
/// `resolve` return for the same arguments, they name the same target or
/// fail in the same way.
pub proof fn resolve_is_deterministic(
    network: Seq<char>,
    provider: Seq<char>,
    api_key: Seq<char>,
    first: Result<ConnectionTarget, ResolveError>,
    second: Result<ConnectionTarget, ResolveError>,
)
    requires
        resolution(first) == spec_resolve(network, provider, api_key),
        resolution(second) == spec_resolve(network, provider, api_key),
    ensures
        resolution(first) == resolution(second),
        first is Ok <==> second is Ok,
{
}

/// A network tag outside the supported set is refused as such, whatever the
/// provider tag and the key are.
pub proof fn unsupported_network_is_refused(
    network: Seq<char>,
    provider: Seq<char>,
    api_key: Seq<char>,
)
    requires
        Network::spec_from_tag(network) is None,
    ensures
        spec_resolve(network, provider, api_key) == Err::<TargetView, ResolveError>(
            ResolveError::UnsupportedNetwork,
        ),
{
}

} // verus!
