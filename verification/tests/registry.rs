use aleo_client::error::{ConstructError, ResolveError, StorageError, SwitchError};
use aleo_client::health::{HealthAction, HealthEvent, Liveness, Status};
use aleo_client::registry::{switch_to_obscura, AleoClient, Persist, Persistence, Selection};
use aleo_client::target::{ConnectionTarget, Network, Provider};

/// Stands for an SDK client in these tests: it remembers what it was built
/// for and which build it came from.
#[derive(Debug, PartialEq, Eq)]
struct StubClient {
    base_url: String,
    chain_id: String,
    build: u32,
}

fn build(target: &ConnectionTarget, build: u32) -> StubClient {
    StubClient { base_url: target.base_url().to_string(), chain_id: target.chain_id().to_string(), build }
}

fn registry(provider: Provider) -> AleoClient<StubClient> {
    let selection = Selection { network: Network::Testnet3, provider };
    let client = build(&selection.target("key"), 0);
    AleoClient::new(client, selection, "key")
}

fn construct_failure() -> ConstructError {
    ConstructError { message: "malformed url".to_string() }
}

fn storage_failure() -> StorageError {
    StorageError { message: "read-only store".to_string() }
}

#[test]
fn new_registry_holds_the_client_it_was_given() {
    let registry = registry(Provider::Obscura);
    assert_eq!(registry.get_instance().build, 0);
    assert_eq!(registry.get_instance().base_url, "https://aleo-testnet3.obscura.build/v1/key");
    assert_eq!(registry.selection(), Selection { network: Network::Testnet3, provider: Provider::Obscura });
    assert_eq!(registry.target(), ConnectionTarget::testnet3("key"));
}

#[test]
fn testnet3_registry_serves_the_presets() {
    let registry = AleoClient::testnet3(build(&ConnectionTarget::testnet3("key"), 0), "key");
    assert_eq!(registry.selection(), Selection { network: Network::Testnet3, provider: Provider::Obscura });
    assert_eq!(registry.target(), ConnectionTarget::testnet3("key"));
    assert_eq!(registry.get_instance().build, 0);
}

#[test]
fn switch_network_replaces_the_client() {
    let mut registry = registry(Provider::Obscura);
    let plan = registry.switch_network("testnet3").unwrap();
    assert_eq!(plan.persist(), Persist::Network(Network::Testnet3));
    assert_eq!(plan.target(), &ConnectionTarget::testnet3("key"));
    assert_eq!(plan.selection(), Selection { network: Network::Testnet3, provider: Provider::Obscura });
    assert_eq!(registry.get_instance().build, 0);
    let client = build(plan.target(), 1);
    assert_eq!(registry.complete_switch(plan, Ok(()), Ok(client)), Ok(Persistence::Saved));
    assert_eq!(registry.get_instance().build, 1);
    assert_eq!(registry.get_instance().chain_id, "testnet3");
}

#[test]
fn switch_network_keeps_the_provider() {
    let registry = registry(Provider::Aleo);
    let plan = registry.switch_network("testnet3").unwrap();
    assert_eq!(plan.selection().provider, Provider::Aleo);
    assert_eq!(plan.target(), &ConnectionTarget::explorer());
}

#[test]
fn switch_network_to_an_unknown_chain_is_refused() {
    let registry = registry(Provider::Obscura);
    assert_eq!(
        registry.switch_network("unknown-chain"),
        Err(SwitchError::Resolve(ResolveError::UnsupportedNetwork))
    );
    assert_eq!(registry.get_instance(), &build(&ConnectionTarget::testnet3("key"), 0));
    assert_eq!(registry.selection().network, Network::Testnet3);
    for tag in ["mainnet", "devnet", ""] {
        assert_eq!(registry.switch_network(tag), Err(SwitchError::Resolve(ResolveError::UnsupportedNetwork)));
    }
}

#[test]
fn a_client_that_cannot_be_built_leaves_the_registry_as_it_was() {
    let mut registry = registry(Provider::Aleo);
    let plan = registry.switch_provider("obscura", Ok("aleo")).unwrap().unwrap();
    let report = registry.complete_switch(plan, Ok(()), Err(construct_failure()));
    assert_eq!(report, Err(SwitchError::Construct(construct_failure())));
    assert_eq!(registry.get_instance(), &build(&ConnectionTarget::explorer(), 0));
    assert_eq!(registry.selection().provider, Provider::Aleo);
    assert_eq!(registry.target(), ConnectionTarget::explorer());
}

#[test]
fn a_failed_build_outweighs_a_failed_write() {
    let mut registry = registry(Provider::Obscura);
    let plan = registry.switch_network("testnet3").unwrap();
    let report = registry.complete_switch(plan, Err(storage_failure()), Err(construct_failure()));
    assert_eq!(report, Err(SwitchError::Construct(construct_failure())));
    assert_eq!(registry.get_instance().build, 0);
}

#[test]
fn a_preference_that_cannot_be_persisted_does_not_undo_the_switch() {
    let mut registry = registry(Provider::Aleo);
    let plan = registry.switch_provider("obscura", Ok("aleo")).unwrap().unwrap();
    let client = build(plan.target(), 1);
    let report = registry.complete_switch(plan, Err(storage_failure()), Ok(client));
    assert_eq!(report, Ok(Persistence::Unsaved(storage_failure())));
    assert_eq!(registry.get_instance().build, 1);
    assert_eq!(registry.get_instance().base_url, "https://aleo-testnet3.obscura.build/v1/key");
    assert_eq!(registry.selection().provider, Provider::Obscura);
}

#[test]
fn switch_provider_plans_the_new_target() {
    let registry = registry(Provider::Obscura);
    let plan = registry.switch_provider("aleo", Ok("obscura")).unwrap().unwrap();
    assert_eq!(plan.persist(), Persist::Provider(Provider::Aleo));
    assert_eq!(plan.target(), &ConnectionTarget::explorer());
    assert_eq!(plan.selection(), Selection { network: Network::Testnet3, provider: Provider::Aleo });
}

#[test]
fn switch_provider_twice_builds_one_client() {
    let mut registry = registry(Provider::Aleo);
    let mut store = "aleo".to_string();
    let mut builds = 0;
    for _ in 0..2 {
        if let Some(plan) = registry.switch_provider("obscura", Ok(store.as_str())).unwrap() {
            if let Persist::Provider(provider) = plan.persist() {
                store = provider.tag().to_string();
            }
            builds += 1;
            let client = build(plan.target(), builds);
            assert_eq!(registry.complete_switch(plan, Ok(()), Ok(client)), Ok(Persistence::Saved));
        }
        assert_eq!(store, "obscura");
    }
    assert_eq!(builds, 1);
    assert_eq!(registry.get_instance().build, 1);
    assert_eq!(registry.selection().provider, Provider::Obscura);
}

#[test]
fn switch_provider_refuses_an_unknown_provider() {
    let registry = registry(Provider::Obscura);
    assert_eq!(
        registry.switch_provider("nobody", Ok("obscura")),
        Err(SwitchError::Resolve(ResolveError::UnsupportedProvider))
    );
    assert_eq!(
        registry.switch_provider("nobody", Ok("nobody")),
        Err(SwitchError::Resolve(ResolveError::UnsupportedProvider))
    );
    assert_eq!(
        registry.switch_provider("nobody", Err(storage_failure())),
        Err(SwitchError::Resolve(ResolveError::UnsupportedProvider))
    );
}

#[test]
fn switch_provider_surfaces_a_preference_that_cannot_be_read() {
    let registry = registry(Provider::Obscura);
    assert_eq!(
        registry.switch_provider("aleo", Err(storage_failure())),
        Err(SwitchError::Storage(storage_failure()))
    );
}

#[test]
fn switch_to_obscura_acts_only_when_the_preference_differs() {
    let registry = registry(Provider::Obscura);
    assert_eq!(switch_to_obscura(&registry, Ok("obscura")), Ok(None));
    let plan = switch_to_obscura(&registry, Ok("aleo")).unwrap().unwrap();
    assert_eq!(plan.persist(), Persist::Provider(Provider::Obscura));
    assert_eq!(plan.target(), &ConnectionTarget::testnet3("key"));
    assert_eq!(switch_to_obscura(&registry, Err(storage_failure())), Err(SwitchError::Storage(storage_failure())));
}

#[test]
fn startup_selection() {
    let preset = Selection { network: Network::Testnet3, provider: Provider::Obscura };
    assert_eq!(Selection::startup(None, None), Ok(preset));
    assert_eq!(
        Selection::startup(None, Some("aleo")),
        Ok(Selection { network: Network::Testnet3, provider: Provider::Aleo })
    );
    assert_eq!(Selection::startup(None, Some("nobody")), Err(ResolveError::UnsupportedProvider));
    assert_eq!(Selection::startup(Some("testnet3"), None), Ok(preset));
    assert_eq!(
        Selection::startup(Some("testnet3"), Some("aleo")),
        Ok(Selection { network: Network::Testnet3, provider: Provider::Aleo })
    );
    assert_eq!(Selection::startup(Some("testnet3"), Some("obscura")), Ok(preset));
    assert_eq!(Selection::startup(Some("mainnet"), Some("aleo")), Err(ResolveError::UnsupportedNetwork));
    assert_eq!(Selection::startup(Some("mainnet"), Some("nobody")), Err(ResolveError::UnsupportedNetwork));
    assert_eq!(Selection::startup(Some("testnet3"), Some("nobody")), Err(ResolveError::UnsupportedProvider));
    assert_eq!(preset.target("key"), ConnectionTarget::testnet3("key"));
}

#[test]
fn stalled_health_check_flips_the_preference_and_not_the_client() {
    let mut registry = registry(Provider::Aleo);
    let mut store = "aleo".to_string();
    let mut check = registry.check_health();
    assert_eq!(check.assessed(), Provider::Aleo);
    assert_eq!(check.target(), &ConnectionTarget::explorer());
    let mut heights = vec![100u32, 100, 100, 100].into_iter();
    let mut clock = 0u64;
    let mut probes = 0;
    loop {
        match check.action() {
            HealthAction::Connect => check.handle(HealthEvent::Connected { built: Ok(()) }),
            HealthAction::Sample { pause_secs } => {
                assert_eq!(pause_secs, 3);
                probes += 1;
                let height = heights.next().unwrap();
                check.handle(HealthEvent::Sampled { height: Ok(height), observed_at: clock });
                clock += pause_secs;
            }
            HealthAction::ReadPreference => {
                check.handle(HealthEvent::PreferenceRead { stored: Ok(store.clone()) })
            }
            HealthAction::WritePreference { provider } => {
                store = provider.tag().to_string();
                check.handle(HealthEvent::PreferenceWritten { stored: Ok(()) });
            }
            HealthAction::Finish => break,
        }
    }
    assert_eq!(probes, 4);
    assert_eq!(clock, 12);
    assert_eq!(check.liveness(), Liveness::Stalled);
    assert_eq!(check.into_outcome(), Some(Ok(Status::Warning)));
    assert_eq!(store, "obscura");
    assert_eq!(registry.get_instance(), &build(&ConnectionTarget::explorer(), 0));
    assert_eq!(registry.selection().provider, Provider::Aleo);

    assert_eq!(registry.switch_provider("obscura", Ok(store.as_str())), Ok(None));
    assert_eq!(registry.get_instance().build, 0);

    let plan = registry.switch_provider("obscura", Ok("aleo")).unwrap().unwrap();
    let client = build(plan.target(), 1);
    assert_eq!(registry.complete_switch(plan, Ok(()), Ok(client)), Ok(Persistence::Saved));
    assert_eq!(registry.get_instance(), &build(&ConnectionTarget::testnet3("key"), 1));
}

#[test]
fn check_health_is_a_standard_check_of_the_current_provider() {
    let registry = registry(Provider::Obscura);
    let check = registry.check_health();
    assert_eq!(check.assessed(), Provider::Obscura);
    assert_eq!(check.target(), &ConnectionTarget::testnet3("key"));
    assert_eq!(check.action(), HealthAction::Connect);
    assert_eq!(registry.get_instance().build, 0);
}
