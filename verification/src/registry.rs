use crate::error::{ConstructError, ResolveError, StorageError, SwitchError};
use crate::health::{HealthCheck, HealthView, STANDARD_PAUSE_SECS, STANDARD_SAMPLES};
use crate::target::{ConnectionTarget, Network, Provider, TargetView};
use crate::text::same_text;
use vstd::prelude::*;

verus! {

/// The network a client serves and the provider it reaches it through.
#[derive(Clone, Copy, Debug, PartialEq, Eq, Structural)]
pub struct Selection {
    pub network: Network,
    pub provider: Provider,
}

impl Selection {
    /// The selection a process starts with: the persisted network, or the
    /// canonical one where none was persisted, with the persisted provider,
    /// or the preset one where none was persisted. A tag outside the
    /// supported sets is refused, the network's first.
    pub open spec fn spec_startup(network: Option<Seq<char>>, provider: Option<Seq<char>>) -> Result<
        Selection,
        ResolveError,
    > {
        let network = match network {
            None => Some(Network::spec_canonical()),
            Some(tag) => Network::spec_from_tag(tag),
        };
        let provider = match provider {
            None => Some(Provider::spec_preset()),
            Some(tag) => Provider::spec_from_tag(tag),
        };
        match (network, provider) {
            (None, _) => Err(ResolveError::UnsupportedNetwork),
            (Some(_), None) => Err(ResolveError::UnsupportedProvider),
            (Some(n), Some(p)) => Ok(Selection { network: n, provider: p }),
        }
    }

    /// The target that a client for this selection connects to.
    pub open spec fn spec_target(self, api_key: Seq<char>) -> TargetView {
        TargetView::of(self.network, self.provider, api_key)
    }

    /// Settles the selection at start-up from what was persisted.
    pub fn startup(network: Option<&str>, provider: Option<&str>) -> (selection: Result<
        Selection,
        ResolveError,
    >)
        ensures
            selection == Selection::spec_startup(text_of(network), text_of(provider)),
    {
        let network = match network {
            None => Some(Network::canonical()),
            Some(tag) => Network::from_tag(tag),
        };
        let provider = match provider {
            None => Some(Provider::preset()),
            Some(tag) => Provider::from_tag(tag),
        };
        match network {
            None => Err(ResolveError::UnsupportedNetwork),
            Some(n) => match provider {
                None => Err(ResolveError::UnsupportedProvider),
                Some(p) => Ok(Selection { network: n, provider: p }),
            },
        }
    }

    /// The target that a client for this selection connects to.
    pub fn target(self, api_key: &str) -> (target: ConnectionTarget)
        ensures
            target@ == self.spec_target(api_key@),
    {
        ConnectionTarget::of(self.network, self.provider, api_key)
    }
}

/// The characters of an optional tag.
pub open spec fn text_of(tag: Option<&str>) -> Option<Seq<char>> {
    match tag {
        Some(text) => Some(text@),
        None => None,
    }
}

/// The characters of a preference as it was read, or the failure to read it.
pub open spec fn read_of(persisted: Result<&str, StorageError>) -> Result<Seq<char>, StorageError> {
    match persisted {
        Ok(text) => Ok(text@),
        Err(e) => Err(e),
    }
}

/// The preference that a switch asks to have persisted.
#[derive(Clone, Copy, Debug, PartialEq, Eq, Structural)]
pub enum Persist {
    /// Persist this network as the active one.
    Network(Network),
    /// Persist this provider as the preferred one.
    Provider(Provider),
}

/// A switch that was decided and not yet carried out, as a value.
pub struct PlanView {
    pub selection: Selection,
    pub target: TargetView,
    pub persist: Persist,
}

/// A switch that was decided and not yet carried out. The caller persists
/// `persist`, then builds a client for `target`, and hands both results to
/// `complete_switch` of the registry that made the plan.
#[derive(Debug, PartialEq, Eq)]
pub struct SwitchPlan {
    selection: Selection,
    target: ConnectionTarget,
    persist: Persist,
}

impl View for SwitchPlan {
    type V = PlanView;

    closed spec fn view(&self) -> PlanView {
        PlanView { selection: self.selection, target: self.target@, persist: self.persist }
    }
}

impl SwitchPlan {
    /// What the new client will serve.
    pub fn selection(&self) -> (selection: Selection)
        ensures
            selection == self@.selection,
    {
        self.selection
    }

    /// What the new client is to be built for.
    pub fn target(&self) -> (target: &ConnectionTarget)
        ensures
            target@ == self@.target,
    {
        &self.target
    }

    /// What is to be persisted before the client is built.
    pub fn persist(&self) -> (persist: Persist)
        ensures
            persist == self@.persist,
    {
        self.persist
    }
}

/// Whether a completed switch will survive a restart.
#[derive(Clone, Debug, PartialEq, Eq)]
pub enum Persistence {
    /// The new preference was persisted.
    Saved,
    /// The switch took place in memory, but the new preference could not be
    /// persisted.
    Unsaved(StorageError),
}

/// A plan as `switch_network` and `switch_provider` return it, taken by its
/// view.
pub open spec fn planned(answer: Result<SwitchPlan, SwitchError>) -> Result<PlanView, SwitchError> {
    match answer {
        Ok(plan) => Ok(plan@),
        Err(e) => Err(e),
    }
}

/// An optional plan taken by its view.
pub open spec fn planned_if_any(answer: Result<Option<SwitchPlan>, SwitchError>) -> Result<
    Option<PlanView>,
    SwitchError,
> {
    match answer {
        Ok(Some(plan)) => Ok(Some(plan@)),
        Ok(None) => Ok(None),
        Err(e) => Err(e),
    }
}

/// A registry as a value: the current client, what it serves, and the key
/// that its targets are built with.
pub struct RegistryView<C> {
    pub client: C,
    pub selection: Selection,
    pub api_key: Seq<char>,
}

impl<C> RegistryView<C> {
    /// The target of the current client.
    pub open spec fn target(self) -> TargetView {
        self.selection.spec_target(self.api_key)
    }

    /// The plan for a switch to the network that `network` names: the
    /// provider stays, the network is to be persisted. A tag outside the
    /// supported set is refused.
    pub open spec fn network_plan(self, network: Seq<char>) -> Result<PlanView, SwitchError> {
        match Network::spec_from_tag(network) {
            None => Err(SwitchError::Resolve(ResolveError::UnsupportedNetwork)),
            Some(n) => {
                let selection = Selection { network: n, provider: self.selection.provider };
                Ok(
                    PlanView {
                        selection,
                        target: selection.spec_target(self.api_key),
                        persist: Persist::Network(n),
                    },
                )
            },
        }
    }

    /// The plan for a switch to the provider that `requested` names, given
    /// the preference as it was read. A tag outside the supported set is
    /// refused, then a preference that could not be read. Where the
    /// preference is the requested provider already there is nothing to do.
    /// Otherwise the network stays and the provider is to be persisted.
    pub open spec fn provider_plan(self, requested: Seq<char>, persisted: Result<Seq<char>, StorageError>) -> Result<
        Option<PlanView>,
        SwitchError,
    > {
        match Provider::spec_from_tag(requested) {
            None => Err(SwitchError::Resolve(ResolveError::UnsupportedProvider)),
            Some(p) => match persisted {
                Err(e) => Err(SwitchError::Storage(e)),
                Ok(current) => if current == requested {
                    Ok(None)
                } else {
                    let selection = Selection { network: self.selection.network, provider: p };
                    Ok(
                        Some(
                            PlanView {
                                selection,
                                target: selection.spec_target(self.api_key),
                                persist: Persist::Provider(p),
                            },
                        ),
                    )
                },
            },
        }
    }

    /// The registry after a plan was carried out. Where the client could
    /// not be built it is the registry as it was. Otherwise the new client
    /// is the current one and serves the plan's selection, whether or not
    /// the preference could be persisted.
    pub open spec fn completed(self, plan: PlanView, built: Result<C, ConstructError>) -> RegistryView<C> {
        match built {
            Err(_) => self,
            Ok(client) => RegistryView { client, selection: plan.selection, api_key: self.api_key },
        }
    }

    /// What the caller of a switch is told.
    pub open spec fn report(stored: Result<(), StorageError>, built: Result<C, ConstructError>) -> Result<
        Persistence,
        SwitchError,
    > {
        match built {
            Err(e) => Err(SwitchError::Construct(e)),
            Ok(_) => match stored {
                Ok(_) => Ok(Persistence::Saved),
                Err(e) => Ok(Persistence::Unsaved(e)),
            },
        }
    }
}

/// The provider tag in the store once a plan's preference was written to a
/// store that took it: the plan's provider where it asked for one, and what
/// was there before otherwise.
pub open spec fn preference_after(plan: Option<PlanView>, before: Seq<char>) -> Seq<char> {
    match plan {
        Some(PlanView { selection, target, persist: Persist::Provider(p) }) => p.spec_tag(),
        _ => before,
    }
}

/// The one current client of a process, with what it serves. There is a
/// current client at all times: a registry is made around a client that was
/// built, and a switch replaces that client in one step by another that was
/// built.
#[derive(Debug)]
pub struct AleoClient<C> {
    client: C,
    selection: Selection,
    api_key: String,
}

impl<C> View for AleoClient<C> {
    type V = RegistryView<C>;

    closed spec fn view(&self) -> RegistryView<C> {
        RegistryView { client: self.client, selection: self.selection, api_key: self.api_key@ }
    }
}

impl<C> AleoClient<C> {
    /// A registry around `client`, which was built for
    /// `selection.target(api_key)`.
    pub fn new(client: C, selection: Selection, api_key: &str) -> (registry: AleoClient<C>)
        ensures
            registry@ == (RegistryView { client, selection, api_key: api_key@ }),
    {
        AleoClient { client, selection, api_key: api_key.to_owned() }
    }

    /// A registry around `client`, which was built for the canonical
    /// network as the preset provider serves it.
    pub fn testnet3(client: C, api_key: &str) -> (registry: AleoClient<C>)
        ensures
            registry@ == (RegistryView {
                client,
                selection: Selection {
                    network: Network::spec_canonical(),
                    provider: Provider::spec_preset(),
                },
                api_key: api_key@,
            }),
    {
        AleoClient::new(
            client,
            Selection { network: Network::canonical(), provider: Provider::preset() },
            api_key,
        )
    }

    /// The current client. It is the client that the registry was made
    /// around or the one that the last completed switch put in.
    pub fn get_instance(&self) -> (client: &C)
        ensures
            *client == self@.client,
    {
        &self.client
    }

    /// What the current client serves.
    pub fn selection(&self) -> (selection: Selection)
        ensures
            selection == self@.selection,
    {
        self.selection
    }

    /// What the current client is connected to.
    pub fn target(&self) -> (target: ConnectionTarget)
        ensures
            target@ == self@.target(),
    {
        self.selection.target(self.api_key.as_str())
    }

    /// Decides a switch to another network. The registry is not touched:
    /// until `complete_switch` the current client stays what it was.
    pub fn switch_network(&self, network: &str) -> (answer: Result<SwitchPlan, SwitchError>)
        ensures
            planned(answer) == self@.network_plan(network@),
    {
        match Network::from_tag(network) {
            None => Err(SwitchError::Resolve(ResolveError::UnsupportedNetwork)),
            Some(n) => {
                let selection = Selection { network: n, provider: self.selection.provider };
                Ok(
                    SwitchPlan {
                        selection,
                        target: selection.target(self.api_key.as_str()),
                        persist: Persist::Network(n),
                    },
                )
            },
        }
    }

    /// Decides a switch to another provider, given the preference as it was
    /// read from the store. `Ok(None)` says that the preference is the
    /// requested provider already and nothing is to be done.
    pub fn switch_provider(&self, requested: &str, persisted: Result<&str, StorageError>) -> (answer: Result<
        Option<SwitchPlan>,
        SwitchError,
    >)
        ensures
            planned_if_any(answer) == self@.provider_plan(requested@, read_of(persisted)),
    {
        match Provider::from_tag(requested) {
            None => Err(SwitchError::Resolve(ResolveError::UnsupportedProvider)),
            Some(p) => match persisted {
                Err(e) => Err(SwitchError::Storage(e)),
                Ok(current) => {
                    if same_text(current, requested) {
                        Ok(None)
                    } else {
                        let selection = Selection { network: self.selection.network, provider: p };
                        Ok(
                            Some(
                                SwitchPlan {
                                    selection,
                                    target: selection.target(self.api_key.as_str()),
                                    persist: Persist::Provider(p),
                                },
                            ),
                        )
                    }
                },
            },
        }
    }

    /// Carries a plan out, given what came of persisting its preference and
    /// of building its client. The switch is all or nothing: where the
    /// client could not be built the registry is left exactly as it was,
    /// and otherwise the new client replaces the old one in this one step.
    /// A preference that could not be persisted does not undo the switch;
    /// it is reported beside it.
    pub fn complete_switch(
        &mut self,
        plan: SwitchPlan,
        stored: Result<(), StorageError>,
        built: Result<C, ConstructError>,
    ) -> (report: Result<Persistence, SwitchError>)
        ensures
            final(self)@ == old(self)@.completed(plan@, built),
            report == RegistryView::<C>::report(stored, built),
            built is Err ==> *final(self) == *old(self),
    {
        match built {
            Err(e) => Err(SwitchError::Construct(e)),
            Ok(client) => {
                self.client = client;
                self.selection = plan.selection;
                match stored {
                    Ok(_) => Ok(Persistence::Saved),
                    Err(e) => Ok(Persistence::Unsaved(e)),
                }
            },
        }
    }

    /// Begins a standard health check of the current provider's endpoint.
    /// The check has no access to the registry: whatever it finds and
    /// persists, the current client stays what it is until a switch is
    /// completed.
    pub fn check_health(&self) -> (check: HealthCheck)
        ensures
            check@ == HealthView::start(
                self@.selection.network,
                self@.selection.provider,
                self@.api_key,
                STANDARD_SAMPLES as nat,
                STANDARD_PAUSE_SECS,
            ),
    {
        HealthCheck::standard(self.selection.network, self.selection.provider, self.api_key.as_str())
    }
}

/// Decides a switch of `registry` to the Obscura provider, given the
/// preference as it was read from the store.
pub fn switch_to_obscura<C>(registry: &AleoClient<C>, persisted: Result<&str, StorageError>) -> (answer: Result<
    Option<SwitchPlan>,
    SwitchError,
>)
    ensures
        planned_if_any(answer) == registry@.provider_plan(
            Provider::Obscura.spec_tag(),
            read_of(persisted),
        ),
{
    registry.switch_provider(Provider::Obscura.tag(), persisted)
}

/// A switch to a provider, asked for twice in a row, is carried out once:
/// with a store that takes what is written to it, the preference after the
/// first request is the requested provider, the second request plans
/// nothing, so builds no client, and leaves the preference as it is.
pub proof fn switch_provider_is_idempotent<C>(
    registry: RegistryView<C>,
    requested: Seq<char>,
    persisted: Seq<char>,
)
    requires
        Provider::spec_from_tag(requested) is Some,
    ensures
        ({
            let first = registry.provider_plan(requested, Ok(persisted));
            &&& first is Ok
            &&& preference_after(first->Ok_0, persisted) == requested
            &&& forall|built: Result<C, ConstructError>|
                #![trigger registry.completed(first->Ok_0->Some_0, built)]
                first->Ok_0 is Some ==> registry.completed(first->Ok_0->Some_0, built).provider_plan(
                    requested,
                    Ok(preference_after(first->Ok_0, persisted)),
                ) == Ok::<Option<PlanView>, SwitchError>(None)
            &&& registry.provider_plan(requested, Ok(preference_after(first->Ok_0, persisted))) == Ok::<
                Option<PlanView>,
                SwitchError,
            >(None)
            &&& preference_after(None, preference_after(first->Ok_0, persisted)) == requested
        }),
{
}

/// Whoever looks at the registry around a switch sees the client from
/// before the switch or the client that was built for it, whole, and never
/// anything else: a failed build leaves the registry as a whole what it was.
pub proof fn switch_yields_old_or_new<C>(
    registry: RegistryView<C>,
    plan: PlanView,
    stored: Result<(), StorageError>,
    built: Result<C, ConstructError>,
)
    ensures
        built is Err ==> registry.completed(plan, built) == registry,
        built is Ok ==> registry.completed(plan, built).client == built->Ok_0,
        built is Ok ==> registry.completed(plan, built).selection == plan.selection,
        registry.completed(plan, built).api_key == registry.api_key,
        RegistryView::<C>::report(stored, built) is Err <==> built is Err,
{
}

/// A switch to another network leaves the provider alone: its plan keeps
/// the current provider and asks for the network to be persisted, never
/// for a provider.
pub proof fn network_switch_keeps_provider<C>(registry: RegistryView<C>, network: Seq<char>)
    ensures
        registry.network_plan(network) matches Ok(plan) ==> {
            &&& plan.selection.provider == registry.selection.provider
            &&& plan.persist is Network
            &&& Network::spec_from_tag(network) == Some(plan.selection.network)
        },
        registry.network_plan(network) is Err <==> Network::spec_from_tag(network) is None,
{
}

} // verus!
