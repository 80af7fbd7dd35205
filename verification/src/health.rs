use crate::error::{ConstructError, HealthError, ProbeError, StorageError};
use crate::target::{ConnectionTarget, Network, Provider, TargetView};
use crate::text::same_text;
use vstd::prelude::*;

verus! {

/// How many samples a standard health check takes.
pub const STANDARD_SAMPLES: usize = 4;

/// How many seconds a standard health check pauses after each sample.
pub const STANDARD_PAUSE_SECS: u64 = 3;

/// Whether an endpoint's chain is moving.
#[derive(Clone, Copy, Debug, PartialEq, Eq, Structural)]
pub enum Liveness {
    /// Some sample was strictly higher than the one before it.
    Advancing,
    /// No sample was higher than the one before it.
    Stalled,
}

/// What a health check reports to the caller.
#[derive(Clone, Copy, Debug, PartialEq, Eq, Structural)]
pub enum Status {
    /// The endpoint's chain is advancing.
    Up,
    /// Never reported by a health check; kept for callers that know an
    /// endpoint to be unreachable by other means.
    Down,
    /// The endpoint's chain is stalled.
    Warning,
}

/// One observation of an endpoint's chain height.
#[derive(Clone, Copy, Debug, PartialEq, Eq, Structural)]
pub struct HeightSample {
    /// The height that was read, or 0 where the probe failed.
    pub value: u32,
    /// When it was read, on the caller's clock.
    pub observed_at: u64,
}

/// The height that a probe counts for: what it read, or 0 where it failed.
pub open spec fn spec_score(probe: Result<u32, ProbeError>) -> u32 {
    match probe {
        Ok(height) => height,
        Err(_) => 0,
    }
}

/// Whether sample `i + 1` is strictly higher than sample `i`.
pub open spec fn rises_at(samples: Seq<HeightSample>, i: int) -> bool {
    0 <= i && i + 1 < samples.len() && samples[i].value < samples[i + 1].value
}

/// Whether some sample is strictly higher than the one before it.
pub open spec fn advancing(samples: Seq<HeightSample>) -> bool {
    exists|i: int| rises_at(samples, i)
}

/// The verdict on a run of samples.
pub open spec fn spec_assess(samples: Seq<HeightSample>) -> Liveness {
    if advancing(samples) {
        Liveness::Advancing
    } else {
        Liveness::Stalled
    }
}

/// What is reported for a verdict.
pub open spec fn spec_status(liveness: Liveness) -> Status {
    match liveness {
        Liveness::Advancing => Status::Up,
        Liveness::Stalled => Status::Warning,
    }
}

/// Turns a probe into the height it counts for.
pub fn score(probe: Result<u32, ProbeError>) -> (height: u32)
    ensures
        height == spec_score(probe),
{
    match probe {
        Ok(height) => height,
        Err(_) => 0,
    }
}

/// Classifies a run of samples: advancing if and only if some sample is
/// strictly higher than the one before it.
pub fn assess(samples: &[HeightSample]) -> (liveness: Liveness)
    ensures
        liveness == spec_assess(samples@),
{
    let mut i: usize = 1;
    while i < samples.len()
        invariant
            1 <= i,
            forall|j: int| 0 <= j && j + 1 < i ==> !rises_at(samples@, j),
        decreases samples.len() - i,
    {
        if samples[i - 1].value < samples[i].value {
            assert(rises_at(samples@, i - 1));
            return Liveness::Advancing;
        }
        i = i + 1;
    }
    Liveness::Stalled
}

/// What is reported for `liveness`.
pub fn status_of(liveness: Liveness) -> (status: Status)
    ensures
        status == spec_status(liveness),
{
    match liveness {
        Liveness::Advancing => Status::Up,
        Liveness::Stalled => Status::Warning,
    }
}

/// What is reported for a run of samples: `Up` if the height moved forward
/// at least once, `Warning` if it never did.
pub fn network_status(samples: &[HeightSample]) -> (status: Status)
    ensures
        status == spec_status(spec_assess(samples@)),
{
    status_of(assess(samples))
}

/// What the caller of a health check is to do next.
#[derive(Clone, Copy, Debug, PartialEq, Eq, Structural)]
pub enum HealthAction {
    /// Build a probing client for the check's target.
    Connect,
    /// Query the height once, pause for `pause_secs` seconds, and report.
    Sample { pause_secs: u64 },
    /// Read the persisted provider preference.
    ReadPreference,
    /// Persist `provider` as the preferred provider.
    WritePreference { provider: Provider },
    /// Nothing more: the check is over.
    Finish,
}

/// What the caller reports back after carrying out an action.
#[derive(Debug, PartialEq, Eq)]
pub enum HealthEvent {
    /// The probing client was built, or could not be.
    Connected { built: Result<(), ConstructError> },
    /// A height was queried at `observed_at`, with this result.
    Sampled { height: Result<u32, ProbeError>, observed_at: u64 },
    /// The persisted provider tag was read, or could not be.
    PreferenceRead { stored: Result<String, StorageError> },
    /// The provider was persisted, or could not be.
    PreferenceWritten { stored: Result<(), StorageError> },
}

/// Where a health check stands.
#[derive(Debug, PartialEq, Eq)]
pub enum Phase {
    /// Waiting for the probing client.
    Connecting,
    /// Waiting for the next sample.
    Sampling,
    /// The chain advances; waiting for the persisted preference.
    Reading,
    /// Waiting for `provider` to be persisted; `report` follows.
    Writing { provider: Provider, report: Status },
    /// Over.
    Finished { outcome: Result<Status, HealthError> },
}

/// A health check as a value: what it assesses, what it has seen, and where
/// it stands.
pub struct HealthView {
    pub assessed: Provider,
    pub target: TargetView,
    pub wanted: nat,
    pub pause_secs: u64,
    pub samples: Seq<HeightSample>,
    pub phase: Phase,
}

impl HealthView {
    /// A check that has not begun.
    pub open spec fn start(
        network: Network,
        assessed: Provider,
        api_key: Seq<char>,
        wanted: nat,
        pause_secs: u64,
    ) -> HealthView {
        HealthView {
            assessed,
            target: TargetView::of(network, assessed, api_key),
            wanted,
            pause_secs,
            samples: Seq::empty(),
            phase: Phase::Connecting,
        }
    }

    /// The check with its phase replaced.
    pub open spec fn at(self, phase: Phase) -> HealthView {
        HealthView { phase, ..self }
    }

    /// The check once its samples are all there. An advancing chain sends it
    /// to read the preference; a stalled one has the fallback provider
    /// persisted and `Warning` reported.
    pub open spec fn settled(self) -> HealthView {
        if advancing(self.samples) {
            self.at(Phase::Reading)
        } else {
            self.at(Phase::Writing { provider: Provider::spec_fallback(), report: Status::Warning })
        }
    }

    /// What the caller is to do in this state.
    pub open spec fn action(self) -> HealthAction {
        match self.phase {
            Phase::Connecting => HealthAction::Connect,
            Phase::Sampling => HealthAction::Sample { pause_secs: self.pause_secs },
            Phase::Reading => HealthAction::ReadPreference,
            Phase::Writing { provider, report } => HealthAction::WritePreference { provider },
            Phase::Finished { outcome } => HealthAction::Finish,
        }
    }

    /// The state that follows on an event. An event that does not answer
    /// the pending action changes nothing.
    pub open spec fn after(self, event: HealthEvent) -> HealthView {
        match (self.phase, event) {
            (Phase::Connecting, HealthEvent::Connected { built: Ok(_) }) => {
                if self.wanted == 0 {
                    self.settled()
                } else {
                    self.at(Phase::Sampling)
                }
            },
            (Phase::Connecting, HealthEvent::Connected { built: Err(e) }) => {
                self.at(Phase::Finished { outcome: Err(HealthError::Construct(e)) })
            },
            (Phase::Sampling, HealthEvent::Sampled { height, observed_at }) => {
                let taken = HealthView {
                    samples: self.samples.push(
                        HeightSample { value: spec_score(height), observed_at },
                    ),
                    ..self
                };
                if taken.samples.len() >= taken.wanted {
                    taken.settled()
                } else {
                    taken
                }
            },
            (Phase::Reading, HealthEvent::PreferenceRead { stored: Ok(tag) }) => {
                if tag@ == self.assessed.spec_tag() {
                    self.at(Phase::Finished { outcome: Ok(Status::Up) })
                } else {
                    self.at(Phase::Writing { provider: self.assessed, report: Status::Up })
                }
            },
            (Phase::Reading, HealthEvent::PreferenceRead { stored: Err(e) }) => {
                self.at(Phase::Finished { outcome: Err(HealthError::Storage(e)) })
            },
            (Phase::Writing { provider, report }, HealthEvent::PreferenceWritten { stored: Ok(_) }) => {
                self.at(Phase::Finished { outcome: Ok(report) })
            },
            (Phase::Writing { provider, report }, HealthEvent::PreferenceWritten { stored: Err(e) }) => {
                self.at(Phase::Finished { outcome: Err(HealthError::Storage(e)) })
            },
            _ => self,
        }
    }

    /// The state that follows on a run of events, taken in turn.
    pub open spec fn after_all(self, events: Seq<HealthEvent>) -> HealthView
        decreases events.len(),
    {
        if events.len() == 0 {
            self
        } else {
            self.after_all(events.drop_last()).after(events.last())
        }
    }

    /// What holds of every state that a check can reach.
    pub open spec fn inv(self) -> bool {
        &&& self.samples.len() <= self.wanted
        &&& match self.phase {
            Phase::Connecting => self.samples.len() == 0,
            Phase::Sampling => self.samples.len() < self.wanted,
            Phase::Reading => self.samples.len() == self.wanted && advancing(self.samples),
            Phase::Writing { provider, report } => {
                &&& self.samples.len() == self.wanted
                &&& report == spec_status(spec_assess(self.samples))
                &&& provider == (if advancing(self.samples) {
                    self.assessed
                } else {
                    Provider::spec_fallback()
                })
            },
            Phase::Finished { outcome } => match outcome {
                Ok(status) => {
                    &&& self.samples.len() == self.wanted
                    &&& status == spec_status(spec_assess(self.samples))
                },
                Err(HealthError::Construct(_)) => self.samples.len() == 0,
                Err(HealthError::Storage(_)) => self.samples.len() == self.wanted,
            },
        }
    }
}

/// One run of the health monitor against one provider's endpoint. It does no
/// I/O itself: `action` says what is to be done next and `handle` takes what
/// came of it.
pub struct HealthCheck {
    assessed: Provider,
    target: ConnectionTarget,
    wanted: usize,
    pause_secs: u64,
    samples: Vec<HeightSample>,
    phase: Phase,
}

impl View for HealthCheck {
    type V = HealthView;

    closed spec fn view(&self) -> HealthView {
        HealthView {
            assessed: self.assessed,
            target: self.target@,
            wanted: self.wanted as nat,
            pause_secs: self.pause_secs,
            samples: self.samples@,
            phase: self.phase,
        }
    }
}

impl HealthCheck {
    /// A check of `assessed` on `network` that takes `samples` samples and
    /// pauses `pause_secs` seconds after each.
    pub fn new(network: Network, assessed: Provider, api_key: &str, samples: usize, pause_secs: u64) -> (check: HealthCheck)
        ensures
            check@ == HealthView::start(network, assessed, api_key@, samples as nat, pause_secs),
    {
        HealthCheck {
            assessed,
            target: ConnectionTarget::of(network, assessed, api_key),
            wanted: samples,
            pause_secs,
            samples: Vec::new(),
            phase: Phase::Connecting,
        }
    }

    /// A check of `assessed` on `network` with the standard number of
    /// samples and the standard pause.
    pub fn standard(network: Network, assessed: Provider, api_key: &str) -> (check: HealthCheck)
        ensures
            check@ == HealthView::start(
                network,
                assessed,
                api_key@,
                STANDARD_SAMPLES as nat,
                STANDARD_PAUSE_SECS,
            ),
    {
        HealthCheck::new(network, assessed, api_key, STANDARD_SAMPLES, STANDARD_PAUSE_SECS)
    }

    /// The provider whose endpoint is assessed.
    pub fn assessed(&self) -> (provider: Provider)
        ensures
            provider == self@.assessed,
    {
        self.assessed
    }

    /// The endpoint that is probed.
    pub fn target(&self) -> (target: &ConnectionTarget)
        ensures
            target@ == self@.target,
    {
        &self.target
    }

    /// The samples taken so far, oldest first.
    pub fn samples(&self) -> (samples: &[HeightSample])
        ensures
            samples@ == self@.samples,
    {
        self.samples.as_slice()
    }

    /// The verdict on the samples taken so far.
    pub fn liveness(&self) -> (liveness: Liveness)
        ensures
            liveness == spec_assess(self@.samples),
    {
        assess(self.samples.as_slice())
    }

    /// What the caller is to do next.
    pub fn action(&self) -> (action: HealthAction)
        ensures
            action == self@.action(),
    {
        match &self.phase {
            Phase::Connecting => HealthAction::Connect,
            Phase::Sampling => HealthAction::Sample { pause_secs: self.pause_secs },
            Phase::Reading => HealthAction::ReadPreference,
            Phase::Writing { provider, report } => HealthAction::WritePreference { provider: *provider },
            Phase::Finished { outcome } => HealthAction::Finish,
        }
    }

    fn settle(&mut self)
        ensures
            final(self)@ == old(self)@.settled(),
    {
        match assess(self.samples.as_slice()) {
            Liveness::Advancing => {
                self.phase = Phase::Reading;
            },
            Liveness::Stalled => {
                self.phase = Phase::Writing { provider: Provider::fallback(), report: Status::Warning };
            },
        }
    }

    /// Takes what came of the pending action and moves on.
    pub fn handle(&mut self, event: HealthEvent)
        ensures
            final(self)@ == old(self)@.after(event),
    {
        match event {
            HealthEvent::Connected { built } => {
                if let Phase::Connecting = &self.phase {
                    match built {
                        Ok(_) => {
                            if self.wanted == 0 {
                                self.settle();
                            } else {
                                self.phase = Phase::Sampling;
                            }
                        },
                        Err(e) => {
                            self.phase = Phase::Finished { outcome: Err(HealthError::Construct(e)) };
                        },
                    }
                }
            },
            HealthEvent::Sampled { height, observed_at } => {
                if let Phase::Sampling = &self.phase {
                    self.samples.push(HeightSample { value: score(height), observed_at });
                    if self.samples.len() >= self.wanted {
                        self.settle();
                    }
                }
            },
            HealthEvent::PreferenceRead { stored } => {
                if let Phase::Reading = &self.phase {
                    match stored {
                        Ok(tag) => {
                            if same_text(tag.as_str(), self.assessed.tag()) {
                                self.phase = Phase::Finished { outcome: Ok(Status::Up) };
                            } else {
                                self.phase = Phase::Writing { provider: self.assessed, report: Status::Up };
                            }
                        },
                        Err(e) => {
                            self.phase = Phase::Finished { outcome: Err(HealthError::Storage(e)) };
                        },
                    }
                }
            },
            HealthEvent::PreferenceWritten { stored } => {
                let report = match &self.phase {
                    Phase::Writing { provider, report } => Some(*report),
                    _ => None,
                };
                if let Some(report) = report {
                    match stored {
                        Ok(_) => {
                            self.phase = Phase::Finished { outcome: Ok(report) };
                        },
                        Err(e) => {
                            self.phase = Phase::Finished { outcome: Err(HealthError::Storage(e)) };
                        },
                    }
                }
            },
        }
    }

    /// How the check ended, or `None` while it is still under way.
    pub fn into_outcome(self) -> (outcome: Option<Result<Status, HealthError>>)
        ensures
            outcome == match self@.phase {
                Phase::Finished { outcome } => Some(outcome),
                _ => None,
            },
    {
        match self.phase {
            Phase::Finished { outcome } => Some(outcome),
            _ => None,
        }
    }
}

/// No event takes `inv` away.
pub proof fn check_keeps_inv(state: HealthView, event: HealthEvent)
    requires
        state.inv(),
    ensures
        state.after(event).inv(),
{
}

/// Every state that a check can reach has `inv`, whatever events it was
/// given and in whatever order. So a check never holds more samples than it
/// was asked for, reports a status only once they are all there, and then
/// reports `Up` exactly for an advancing run and `Warning` for a stalled one.
pub proof fn every_reachable_state_has_inv(
    network: Network,
    assessed: Provider,
    api_key: Seq<char>,
    wanted: nat,
    pause_secs: u64,
    events: Seq<HealthEvent>,
)
    ensures
        HealthView::start(network, assessed, api_key, wanted, pause_secs).after_all(events).inv(),
    decreases events.len(),
{
    let start = HealthView::start(network, assessed, api_key, wanted, pause_secs);
    if events.len() > 0 {
        every_reachable_state_has_inv(network, assessed, api_key, wanted, pause_secs, events.drop_last());
        check_keeps_inv(start.after_all(events.drop_last()), events.last());
    }
}

/// What a check was made for stays with it: no event changes the provider
/// it assesses, the endpoint it probes, the number of samples it wants or
/// its pause, and no event takes a sample away.
pub proof fn check_keeps_its_terms(state: HealthView, event: HealthEvent)
    ensures
        state.after(event).assessed == state.assessed,
        state.after(event).target == state.target,
        state.after(event).wanted == state.wanted,
        state.after(event).pause_secs == state.pause_secs,
        state.samples.is_prefix_of(state.after(event).samples),
        state.phase is Finished ==> state.after(event) == state,
{
}

/// A failed probe never ends a run: while samples are awaited, every
/// sample event, failed or not, adds one sample, which is 0 for a failure,
/// and the check goes on to the next sample or to its verdict.
pub proof fn failed_probe_counts_as_zero(state: HealthView, failure: ProbeError, observed_at: u64)
    requires
        state.phase == Phase::Sampling,
    ensures
        ({
            let next = state.after(HealthEvent::Sampled { height: Err(failure), observed_at });
            &&& next.samples == state.samples.push(HeightSample { value: 0, observed_at })
            &&& !(next.phase is Finished)
        }),
{
}

/// A run in which every sample after the first is 0 is stalled, whatever
/// the first sample was.
pub proof fn zeros_after_first_are_stalled(samples: Seq<HeightSample>)
    requires
        forall|i: int| 1 <= i < samples.len() ==> samples[i].value == 0,
    ensures
        spec_assess(samples) == Liveness::Stalled,
{
    assert forall|i: int| !rises_at(samples, i) by {
        if 0 <= i && i + 1 < samples.len() {
            assert(samples[i + 1].value == 0);
        }
    }
}

/// A stalled run never changes the preference to anything but the fallback
/// provider, and an advancing run never to anything but the assessed one.
pub proof fn preference_follows_verdict(state: HealthView)
    requires
        state.inv(),
    ensures
        state.action() matches HealthAction::WritePreference { provider } ==> provider == (if advancing(
            state.samples,
        ) {
            state.assessed
        } else {
            Provider::spec_fallback()
        }),
{
}

/// One probe as the caller reports it: what the query gave and when.
pub struct Probe {
    pub height: Result<u32, ProbeError>,
    pub observed_at: u64,
}

/// The events by which a run of probes is reported.
pub open spec fn reports(probes: Seq<Probe>) -> Seq<HealthEvent> {
    Seq::new(
        probes.len(),
        |i: int| HealthEvent::Sampled { height: probes[i].height, observed_at: probes[i].observed_at },
    )
}

/// The samples that a run of probes counts for.
pub open spec fn scored(probes: Seq<Probe>) -> Seq<HeightSample> {
    Seq::new(
        probes.len(),
        |i: int| HeightSample { value: spec_score(probes[i].height), observed_at: probes[i].observed_at },
    )
}

proof fn sampling_goes_on(state: HealthView, probes: Seq<Probe>)
    requires
        state.phase == Phase::Sampling,
        state.samples.len() + probes.len() <= state.wanted,
    ensures
        ({
            let taken = HealthView { samples: state.samples + scored(probes), ..state };
            state.after_all(reports(probes)) == if state.samples.len() + probes.len() < state.wanted
                || probes.len() == 0 {
                taken
            } else {
                taken.settled()
            }
        }),
    decreases probes.len(),
{
    let taken = HealthView { samples: state.samples + scored(probes), ..state };
    if probes.len() == 0 {
        assert(state.samples + scored(probes) =~= state.samples);
    } else {
        let before = probes.drop_last();
        sampling_goes_on(state, before);
        assert(reports(probes).drop_last() =~= reports(before));
        assert(state.samples + scored(probes) =~= (state.samples + scored(before)).push(
            HeightSample { value: spec_score(probes.last().height), observed_at: probes.last().observed_at },
        ));
    }
}

/// A check that is connected and then given as many probes as it wants
/// ends its sampling with exactly those probes as its samples, each failed
/// one counted as 0, and with the verdict on them: no probe, failed or not,
/// ends the run early, and none is asked for beyond the last.
pub proof fn full_run_reaches_the_verdict(
    network: Network,
    assessed: Provider,
    api_key: Seq<char>,
    pause_secs: u64,
    probes: Seq<Probe>,
)
    ensures
        ({
            let start = HealthView::start(network, assessed, api_key, probes.len(), pause_secs);
            let connected = start.after(HealthEvent::Connected { built: Ok(()) });
            &&& connected.after_all(reports(probes)) == (HealthView {
                samples: scored(probes),
                ..start
            }).settled()
            &&& !(connected.after_all(reports(probes)).action() is Sample)
            &&& forall|k: int|
                0 <= k < probes.len() ==> #[trigger] connected.after_all(
                    reports(probes.take(k)),
                ).action() is Sample
        }),
{
    let start = HealthView::start(network, assessed, api_key, probes.len(), pause_secs);
    let connected = start.after(HealthEvent::Connected { built: Ok(()) });
    if probes.len() == 0 {
        assert(scored(probes) =~= start.samples);
        assert(reports(probes).len() == 0);
    } else {
        sampling_goes_on(connected, probes);
        assert(connected.samples + scored(probes) =~= scored(probes));
    }
    assert forall|k: int| 0 <= k < probes.len() implies #[trigger] connected.after_all(
        reports(probes.take(k)),
    ).action() is Sample by {
        sampling_goes_on(connected, probes.take(k));
    }
}

} // verus!
